use harbor_core::auth::{CredentialError, StoredCredentials};
use harbor_core::push::{publish_failure, push_plan, PushPlan};
use harbor_core::registry_client::RegistryError;

fn creds() -> StoredCredentials {
    StoredCredentials {
        token: "tok".to_string(),
        username: "alice".to_string(),
        registry_url: "http://reg.example".to_string(),
    }
}

#[test]
fn push_without_credentials_is_refused() {
    assert_eq!(push_plan(Ok(None), None).unwrap_err(), "not logged in — run `harbor login` first");
    assert_eq!(
        push_plan(Err(CredentialError::Parse("bad".to_string())), None).unwrap_err(),
        "failed to read credentials: failed to parse credentials.toml: bad"
    );
}

#[test]
fn push_publishes_as_the_logged_in_user_to_their_registry() {
    assert_eq!(
        push_plan(Ok(Some(creds())), Some("http://env.example".to_string())).unwrap(),
        PushPlan {
            registry_url: "http://reg.example".to_string(),
            owner: "alice".to_string(),
            token: "tok".to_string()
        }
    );
}

#[test]
fn refused_uploads_are_reported_by_cause() {
    assert_eq!(
        publish_failure(&RegistryError::Auth("expired".to_string()), "alice", "demo", "1.0.0"),
        "authentication failed: expired"
    );
    assert_eq!(
        publish_failure(&RegistryError::Api { status: 409, message: "dup".to_string() }, "alice", "demo", "1.0.0"),
        "version 1.0.0 of alice/demo was already published (versions are immutable)"
    );
    assert_eq!(
        publish_failure(&RegistryError::Api { status: 403, message: "not your namespace".to_string() }, "a", "b", "1"),
        "not your namespace"
    );
    assert_eq!(
        publish_failure(&RegistryError::Network("down".to_string()), "a", "b", "1"),
        "upload failed: network error: down"
    );
}
