//! The failures a command can end in, and their user-facing messages.
use vstd::prelude::*;
use crate::text::{decimal, decimal_string};

verus! {

/// Name of the environment variable that overrides the stored credential.
pub const ENV_VAR_NAME: &'static str = "JINA_API_KEY";

/// Which filesystem step of storing the credential failed.
#[derive(Clone, Copy, Debug, PartialEq, Eq, Structural)]
pub enum PersistStage {
    CreateDirectory,
    WriteFile,
}

/// Which step of the network exchange failed.
#[derive(Clone, Copy, Debug, PartialEq, Eq, Structural)]
pub enum TransportStage {
    Send,
    ReadBody,
}

/// Every way in which a command can fail.
#[derive(Clone, Debug, PartialEq, Eq)]
pub enum JinabError {
    /// The platform supplied no configuration directory.
    ConfigLocationUnavailable,
    /// Creating the configuration directory or writing the file failed.
    PersistError { step: PersistStage, cause: String },
    /// Neither the environment nor the configuration file holds a credential.
    MissingCredential,
    /// The service answered with a status outside 200..=299.
    ApiError { status: u16, body: String },
    /// The request could not be sent, or the body could not be read.
    TransportError { stage: TransportStage, cause: String },
}

/// The guidance shown when no credential can be found.
pub open spec fn missing_credential_text() -> Seq<char> {
    "No API key found. Set "@ + ENV_VAR_NAME@ + " environment variable or run: jinab key <api-key>"@
}

/// How a status code is shown: its number, a space, and its reason phrase.
pub open spec fn status_text_of(code: u16) -> Seq<char> {
    decimal(code as nat) + " "@ + match reason_phrase_of(code) {
        Some(p) => p,
        None => "<unknown status code>"@,
    }
}

/// The canonical reason phrase of an HTTP status code, where it has one.
pub uninterp spec fn reason_phrase_of(code: u16) -> Option<Seq<char>>;

/// Relies on `reqwest::StatusCode::from_u16` and
/// `reqwest::StatusCode::canonical_reason`: the registered reason phrase of a
/// status code, looked up from the code alone.
#[verifier::external_body]
fn canonical_reason(code: u16) -> (r: Option<String>)
    requires
        100 <= code <= 999,
    ensures
        match r {
            Some(p) => reason_phrase_of(code) == Some(p@),
            None => reason_phrase_of(code) == None::<Seq<char>>,
        },
{
    match reqwest::StatusCode::from_u16(code) {
        Ok(s) => s.canonical_reason().map(|p| p.to_string()),
        Err(_) => None,
    }
}

/// Renders a status code as its number followed by its reason phrase.
pub fn status_text(code: u16) -> (r: String)
    requires
        100 <= code <= 999,
    ensures
        r@ == status_text_of(code),
{
    let mut r = decimal_string(code);
    r.append(" ");
    match canonical_reason(code) {
        Some(p) => r.append(p.as_str()),
        None => r.append("<unknown status code>"),
    }
    r
}

/// The user-facing text of an error.
pub open spec fn message_of(e: JinabError) -> Seq<char> {
    match e {
        JinabError::ConfigLocationUnavailable => "Could not determine config directory"@,
        JinabError::PersistError { step, cause } => match step {
            PersistStage::CreateDirectory => "Failed to create config directory: "@ + cause@,
            PersistStage::WriteFile => "Failed to write config file: "@ + cause@,
        },
        JinabError::MissingCredential => missing_credential_text(),
        JinabError::ApiError { status, body } => "API request failed with status "@
            + if 100 <= status <= 999 {
            status_text_of(status)
        } else {
            decimal(status as nat)
        } + ": "@ + body@,
        JinabError::TransportError { stage, cause } => match stage {
            TransportStage::Send => "Request failed: "@ + cause@,
            TransportStage::ReadBody => "Failed to read response: "@ + cause@,
        },
    }
}

impl JinabError {
    /// The message shown to the user for this error.
    pub fn message(&self) -> (r: String)
        ensures
            r@ == message_of(*self),
    {
        match self {
            JinabError::ConfigLocationUnavailable => "Could not determine config directory".to_string(),
            JinabError::PersistError { step, cause } => {
                let mut r = match step {
                    PersistStage::CreateDirectory => "Failed to create config directory: ".to_string(),
                    PersistStage::WriteFile => "Failed to write config file: ".to_string(),
                };
                r.append(cause.as_str());
                r
            },
            JinabError::MissingCredential => {
                let mut r = "No API key found. Set ".to_string();
                r.append(ENV_VAR_NAME);
                r.append(" environment variable or run: jinab key <api-key>");
                r
            },
            JinabError::ApiError { status, body } => {
                let mut r = "API request failed with status ".to_string();
                if 100 <= *status && *status <= 999 {
                    r.append(status_text(*status).as_str());
                } else {
                    r.append(decimal_string(*status).as_str());
                }
                r.append(": ");
                r.append(body.as_str());
                r
            },
            JinabError::TransportError { stage, cause } => {
                let mut r = match stage {
                    TransportStage::Send => "Request failed: ".to_string(),
                    TransportStage::ReadBody => "Failed to read response: ".to_string(),
                };
                r.append(cause.as_str());
                r
            },
        }
    }
}

} // verus!
