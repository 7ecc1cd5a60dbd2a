//! The decisions of `harbor push`: who publishes where, and how a refused
//! upload is reported. Validating and building the package, reading the
//! credentials file and the upload itself are the caller's business.

use vstd::prelude::*;

use crate::auth::{credential_error_text, resolve_registry_url, CredentialError, StoredCredentials};
use crate::registry_client::{registry_error_text, RegistryError};
use crate::text::{chars_of, concat2, extend_str, owned, string_of};

verus! {

/// Where and as whom a package is published.
#[derive(Debug, Clone, PartialEq, Eq)]
pub struct PushPlan {
    /// The registry the upload goes to.
    pub registry_url: String,
    /// The owner namespace: the logged-in user.
    pub owner: String,
    /// The bearer token of the upload.
    pub token: String,
}

/// What reading the stored credentials gave: the credentials, none, or
/// the error.
pub open spec fn readable(creds: Result<Option<StoredCredentials>, CredentialError>) -> Option<StoredCredentials> {
    match creds {
        Ok(Some(c)) => Some(c),
        _ => None,
    }
}

/// Plans a push from what reading the stored credentials gave and the
/// `HARBOR_REGISTRY_URL` variable: the registry is resolved as for every
/// command; without credentials the push is refused before anything is
/// validated; the owner is the logged-in user and the token is theirs.
pub fn push_plan(creds: Result<Option<StoredCredentials>, CredentialError>, env_url: Option<String>) -> (res: Result<
    PushPlan,
    String,
>)
    ensures
        match creds {
            Err(e) => res matches Err(m) && m@ == "failed to read credentials: "@ + credential_error_text(e),
            Ok(None) => res matches Err(m) && m@ == "not logged in — run `harbor login` first"@,
            Ok(Some(c)) => res matches Ok(p) && p.registry_url@ == c.registry_url@ && p.owner@ == c.username@
                && p.token@ == c.token@,
        },
{
    match creds {
        Err(e) => Err(concat2("failed to read credentials: ", e.message().as_str())),
        Ok(None) => Err(owned("not logged in — run `harbor login` first")),
        Ok(Some(c)) => {
            let owner = owned(c.username.as_str());
            let token = owned(c.token.as_str());
            let registry_url = resolve_registry_url(Some(c), env_url);
            Ok(PushPlan { registry_url, owner, token })
        },
    }
}

/// How a refused upload of version `version` of `owner/name` is reported.
pub open spec fn publish_failure_text(e: RegistryError, owner: Seq<char>, name: Seq<char>, version: Seq<char>) -> Seq<char> {
    match e {
        RegistryError::Auth(m) => "authentication failed: "@ + m@,
        RegistryError::Api { status, message } => if status == 409 {
            "version "@ + version + " of "@ + owner + "/"@ + name + " was already published (versions are immutable)"@
        } else if status == 403 {
            message@
        } else {
            "upload failed: "@ + registry_error_text(e)
        },
        _ => "upload failed: "@ + registry_error_text(e),
    }
}

/// The message of a refused upload: a rejected token, a version that is
/// already published, a namespace the user may not publish to (the
/// registry's own words), or any other failure.
pub fn publish_failure(e: &RegistryError, owner: &str, name: &str, version: &str) -> (res: String)
    ensures
        res@ == publish_failure_text(*e, owner@, name@, version@),
{
    match e {
        RegistryError::Auth(m) => concat2("authentication failed: ", m.as_str()),
        RegistryError::Api { status, message } if *status == 409 => {
            let mut v = chars_of("version ");
            extend_str(&mut v, version);
            extend_str(&mut v, " of ");
            extend_str(&mut v, owner);
            extend_str(&mut v, "/");
            extend_str(&mut v, name);
            extend_str(&mut v, " was already published (versions are immutable)");
            string_of(v.as_slice())
        },
        RegistryError::Api { status, message } if *status == 403 => owned(message.as_str()),
        _ => concat2("upload failed: ", e.message().as_str()),
    }
}

} // verus!
