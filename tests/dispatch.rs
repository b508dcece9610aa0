use jinab::api::Header;
use jinab::credential::CredentialSources;
use jinab::dispatch::{cmd_read, cmd_search, error_line, exit_status};
use jinab::error::{JinabError, PersistStage, TransportStage};

fn with_key(key: &str) -> CredentialSources {
    CredentialSources { env_value: None, file_content: Some(key.to_string()) }
}

#[test]
fn read_scenario_builds_authenticated_get() {
    let req = cmd_read(&with_key("abc123"), "https://example.com", false).unwrap();
    assert_eq!(req.url, "https://r.jina.ai/https://example.com");
    assert_eq!(
        req.headers,
        vec![Header { name: "Authorization".to_string(), value: "Bearer abc123".to_string() }]
    );
    assert_eq!(exit_status(&Ok(())), 0);
}

#[test]
fn search_scenario_requests_json() {
    let s = CredentialSources { env_value: Some("abc123".to_string()), file_content: None };
    let req = cmd_search(&s, "rust systems design", true).unwrap();
    assert_eq!(req.url, "https://s.jina.ai/rust systems design");
    assert_eq!(req.headers.len(), 2);
    assert_eq!(req.headers[1].name, "Accept");
    assert_eq!(req.headers[1].value, "application/json");
}

#[test]
fn missing_key_scenario_plans_no_request() {
    let s = CredentialSources { env_value: None, file_content: None };
    let r = cmd_read(&s, "https://example.com", false);
    assert_eq!(r, Err(JinabError::MissingCredential));
    let e = r.unwrap_err();
    let line = error_line(&e);
    assert_eq!(
        line,
        "Error: No API key found. Set JINA_API_KEY environment variable or run: jinab key <api-key>"
    );
    assert!(line.contains("JINA_API_KEY"));
    assert!(line.contains("jinab key"));
    assert_eq!(exit_status(&Err(e)), 1);
}

#[test]
fn error_messages() {
    assert_eq!(JinabError::ConfigLocationUnavailable.message(), "Could not determine config directory");
    assert_eq!(
        JinabError::PersistError { step: PersistStage::CreateDirectory, cause: "denied".to_string() }.message(),
        "Failed to create config directory: denied"
    );
    assert_eq!(
        JinabError::PersistError { step: PersistStage::WriteFile, cause: "full".to_string() }.message(),
        "Failed to write config file: full"
    );
    assert_eq!(
        JinabError::ApiError { status: 401, body: "bad key".to_string() }.message(),
        "API request failed with status 401 Unauthorized: bad key"
    );
    assert_eq!(
        JinabError::ApiError { status: 42, body: String::new() }.message(),
        "API request failed with status 42: "
    );
    assert_eq!(
        JinabError::TransportError { stage: TransportStage::Send, cause: "dns".to_string() }.message(),
        "Request failed: dns"
    );
    assert_eq!(
        JinabError::TransportError { stage: TransportStage::ReadBody, cause: "eof".to_string() }.message(),
        "Failed to read response: eof"
    );
}
