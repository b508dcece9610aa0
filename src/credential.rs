//! Resolving and storing the service credential.
//!
//! The two places a credential can come from, the override variable and the
//! configuration file, are handed in as plain values, so that the precedence
//! rules here hold whatever the environment and the disk contain.
use vstd::prelude::*;
use crate::error::JinabError;
use crate::text::{trim, trimmed, lemma_trimmed_idempotent};

verus! {

/// Name of the application's directory under the platform configuration directory.
pub const CONFIG_DIR_NAME: &'static str = "jinab";

/// Name of the file, inside that directory, that holds the credential.
pub const CONFIG_FILE_NAME: &'static str = "config";

/// What each credential source held when it was read: the override
/// variable's value, and the configuration file's content (`None` where the
/// variable is unset, or the file is missing or unreadable).
#[derive(Clone, Debug, PartialEq, Eq)]
pub struct CredentialSources {
    pub env_value: Option<String>,
    pub file_content: Option<String>,
}

/// The character sequence inside an optional string.
pub open spec fn opt_view(o: Option<String>) -> Option<Seq<char>> {
    match o {
        Some(s) => Some(s@),
        None => None,
    }
}

/// The credential one source offers: its trimmed value, unless that is empty.
pub open spec fn usable(o: Option<Seq<char>>) -> Option<Seq<char>> {
    match o {
        Some(s) => if trimmed(s).len() > 0 {
            Some(trimmed(s))
        } else {
            None
        },
        None => None,
    }
}

/// The credential in effect: the variable's if it offers one, else the file's.
pub open spec fn resolved(env: Option<Seq<char>>, file: Option<Seq<char>>) -> Option<Seq<char>> {
    match usable(env) {
        Some(k) => Some(k),
        None => usable(file),
    }
}

impl CredentialSources {
    /// The override variable's value, as characters.
    pub open spec fn env_view(&self) -> Option<Seq<char>> {
        opt_view(self.env_value)
    }

    /// The configuration file's content, as characters.
    pub open spec fn file_view(&self) -> Option<Seq<char>> {
        opt_view(self.file_content)
    }
}

fn usable_value(o: &Option<String>) -> (r: Option<String>)
    ensures
        opt_view(r) == usable(opt_view(*o)),
{
    match o {
        Some(s) => {
            let k = trim(s.as_str());
            if k.unicode_len() > 0 {
                Some(k)
            } else {
                None
            }
        },
        None => None,
    }
}

/// Returns the credential in effect: the trimmed override variable when it is
/// not blank, else the trimmed file content when it is not blank, else `None`.
pub fn load_api_key(sources: &CredentialSources) -> (r: Option<String>)
    ensures
        opt_view(r) == resolved(sources.env_view(), sources.file_view()),
{
    match usable_value(&sources.env_value) {
        Some(k) => Some(k),
        None => usable_value(&sources.file_content),
    }
}

/// What requiring a credential yields: the credential, or the error that
/// asks the user to provide one.
pub open spec fn required(env: Option<Seq<char>>, file: Option<Seq<char>>) -> Result<Seq<char>, JinabError> {
    match resolved(env, file) {
        Some(k) => Ok(k),
        None => Err(JinabError::MissingCredential),
    }
}

/// Returns the credential in effect, or `MissingCredential` when there is none.
pub fn require_api_key(sources: &CredentialSources) -> (r: Result<String, JinabError>)
    ensures
        match r {
            Ok(k) => required(sources.env_view(), sources.file_view()) == Ok::<Seq<char>, JinabError>(k@),
            Err(e) => required(sources.env_view(), sources.file_view()) == Err::<Seq<char>, JinabError>(e),
        },
{
    match load_api_key(sources) {
        Some(k) => Ok(k),
        None => Err(JinabError::MissingCredential),
    }
}

/// Stores `api_key` as the file's content: trimmed, replacing what was there.
/// The override variable is left as it was.
pub fn save_api_key(sources: &mut CredentialSources, api_key: &str)
    ensures
        final(sources).file_view() == Some(trimmed(api_key@)),
        final(sources).env_view() == old(sources).env_view(),
{
    sources.file_content = Some(trim(api_key));
}

/// Storing a credential and then resolving it, with no override variable set,
/// gives back the stored text trimmed, provided it was not blank.
pub proof fn lemma_persist_then_resolve(s: Seq<char>)
    requires
        trimmed(s).len() > 0,
    ensures
        resolved(None, Some(trimmed(s))) == Some(trimmed(s)),
{
    lemma_trimmed_idempotent(s);
}

/// A non-blank override variable wins over whatever the file holds.
pub proof fn lemma_env_precedence(env: Seq<char>, file: Option<Seq<char>>)
    requires
        trimmed(env).len() > 0,
    ensures
        resolved(Some(env), file) == Some(trimmed(env)),
{
}

/// A blank override variable counts as unset: the file decides.
pub proof fn lemma_blank_env_falls_through(env: Seq<char>, file: Option<Seq<char>>)
    requires
        trimmed(env).len() == 0,
    ensures
        resolved(Some(env), file) == resolved(None, file),
{
}

/// Requiring a credential fails with `MissingCredential` exactly when
/// resolving finds none, and otherwise yields the resolved credential.
pub proof fn lemma_require_fails_iff_absent(env: Option<Seq<char>>, file: Option<Seq<char>>)
    ensures
        (required(env, file) == Err::<Seq<char>, JinabError>(JinabError::MissingCredential))
            <==> resolved(env, file) is None,
        required(env, file) is Ok ==> resolved(env, file) == Some(required(env, file)->Ok_0),
{
}

} // verus!
