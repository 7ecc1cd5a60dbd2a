use harbor_core::auth::{resolve_registry_url, CredentialError, StoredCredentials, DEFAULT_REGISTRY_URL};

#[test]
fn resolve_url_from_credentials_takes_priority() {
    let creds = StoredCredentials {
        token: "t".into(),
        username: "u".into(),
        registry_url: "https://registry.example.com".into(),
    };
    let url = resolve_registry_url(Some(creds), Some("https://env.example.com".to_string()));
    assert_eq!(url, "https://registry.example.com");
}

#[test]
fn resolve_url_falls_back_to_env_var() {
    assert_eq!(resolve_registry_url(None, Some("https://env.example.com".to_string())), "https://env.example.com");
}

#[test]
fn resolve_url_defaults_when_nothing_configured() {
    assert_eq!(resolve_registry_url(None, None), DEFAULT_REGISTRY_URL);
    assert_eq!(DEFAULT_REGISTRY_URL, "http://localhost:8000");
}

#[test]
fn not_logged_in_message_points_at_login() {
    assert_eq!(CredentialError::NotLoggedIn.message(), "not logged in — run `harbor login` first");
}
