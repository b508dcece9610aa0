use jinab::credential::{load_api_key, require_api_key, save_api_key, CredentialSources};
use jinab::error::JinabError;
use jinab::text::trim;

fn sources(env: Option<&str>, file: Option<&str>) -> CredentialSources {
    CredentialSources {
        env_value: env.map(|s| s.to_string()),
        file_content: file.map(|s| s.to_string()),
    }
}

#[test]
fn trim_removes_surrounding_whitespace() {
    assert_eq!(trim("  abc \n\t"), "abc");
    assert_eq!(trim("a b"), "a b");
    assert_eq!(trim(""), "");
    assert_eq!(trim(" \t\r\n "), "");
    assert_eq!(trim("\u{3000}key\u{a0}"), "key");
}

#[test]
fn persist_then_resolve_gives_trimmed_value() {
    let mut s = sources(None, None);
    save_api_key(&mut s, "  sk-abc \n");
    assert_eq!(s.file_content.as_deref(), Some("sk-abc"));
    assert_eq!(load_api_key(&s), Some("sk-abc".to_string()));
}

#[test]
fn persist_overwrites_previous_content() {
    let mut s = sources(None, Some("old"));
    save_api_key(&mut s, "new");
    assert_eq!(load_api_key(&s), Some("new".to_string()));
}

#[test]
fn persist_blank_resolves_to_absent() {
    let mut s = sources(None, None);
    save_api_key(&mut s, "   ");
    assert_eq!(s.file_content.as_deref(), Some(""));
    assert_eq!(load_api_key(&s), None);
}

#[test]
fn environment_takes_precedence_over_file() {
    let s = sources(Some("  from-env "), Some("from-file"));
    assert_eq!(load_api_key(&s), Some("from-env".to_string()));
}

#[test]
fn blank_environment_falls_through_to_file() {
    assert_eq!(load_api_key(&sources(Some(""), Some(" from-file\n"))), Some("from-file".to_string()));
    assert_eq!(load_api_key(&sources(Some(" \t "), Some("from-file"))), Some("from-file".to_string()));
}

#[test]
fn blank_file_and_no_environment_is_absent() {
    assert_eq!(load_api_key(&sources(None, Some("\n\n"))), None);
    assert_eq!(load_api_key(&sources(None, None)), None);
    assert_eq!(load_api_key(&sources(Some(" "), None)), None);
}

#[test]
fn require_fails_only_when_absent() {
    assert_eq!(require_api_key(&sources(None, None)), Err(JinabError::MissingCredential));
    assert_eq!(require_api_key(&sources(Some(" "), Some(""))), Err(JinabError::MissingCredential));
    assert_eq!(require_api_key(&sources(None, Some("abc123"))), Ok("abc123".to_string()));
    assert_eq!(require_api_key(&sources(Some("abc123"), None)), Ok("abc123".to_string()));
}

#[test]
fn store_scenario_writes_exact_key() {
    let mut s = sources(None, None);
    save_api_key(&mut s, "sk-foo");
    assert_eq!(s.file_content.as_deref(), Some("sk-foo"));
}
