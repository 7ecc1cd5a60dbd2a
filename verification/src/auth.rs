//! Registry credentials: what is stored after `harbor login`, and which
//! registry a command talks to. Reading and writing the credentials file
//! (mode 0600) is the caller's business.

use vstd::prelude::*;

use crate::text::owned;

verus! {

/// The registry used when neither stored credentials nor
/// `HARBOR_REGISTRY_URL` name one.
pub const DEFAULT_REGISTRY_URL: &'static str = "http://localhost:8000";

/// Credentials stored by `harbor login`.
#[derive(Debug, Clone, PartialEq, Eq)]
pub struct StoredCredentials {
    pub token: String,
    pub username: String,
    pub registry_url: String,
}

/// Errors while handling stored credentials.
#[derive(Debug, Clone, PartialEq, Eq)]
pub enum CredentialError {
    /// No credentials are stored.
    NotLoggedIn,
    /// Reading or writing the credentials file failed.
    Io(String),
    /// The credentials file does not parse.
    Parse(String),
    /// The credentials could not be serialised.
    Serialize(String),
}

/// What a credentials error says.
pub open spec fn credential_error_text(e: CredentialError) -> Seq<char> {
    match e {
        CredentialError::NotLoggedIn => "not logged in — run `harbor login` first"@,
        CredentialError::Io(m) => "failed to read credentials: "@ + m@,
        CredentialError::Parse(m) => "failed to parse credentials.toml: "@ + m@,
        CredentialError::Serialize(m) => "failed to serialize credentials: "@ + m@,
    }
}

impl CredentialError {
    /// Human-readable description of the error.
    pub fn message(&self) -> (res: String)
        ensures
            res@ == credential_error_text(*self),
    {
        match self {
            CredentialError::NotLoggedIn => owned("not logged in — run `harbor login` first"),
            CredentialError::Io(m) => crate::text::concat2("failed to read credentials: ", m.as_str()),
            CredentialError::Parse(m) => crate::text::concat2("failed to parse credentials.toml: ", m.as_str()),
            CredentialError::Serialize(m) => crate::text::concat2("failed to serialize credentials: ", m.as_str()),
        }
    }
}

/// The registry a command talks to: the one recorded with the stored
/// credentials (`stored`, when they could be read), else `env_url` (the
/// `HARBOR_REGISTRY_URL` variable, when set), else the default.
pub fn resolve_registry_url(stored: Option<StoredCredentials>, env_url: Option<String>) -> (res: String)
    ensures
        res@ == match stored {
            Some(c) => c.registry_url@,
            None => match env_url {
                Some(u) => u@,
                None => DEFAULT_REGISTRY_URL@,
            },
        },
{
    match stored {
        Some(c) => c.registry_url,
        None => match env_url {
            Some(u) => u,
            None => owned(DEFAULT_REGISTRY_URL),
        },
    }
}

} // verus!
