use harbor_core::registry_client::yank_target;
use harbor_core::registry_client::{bearer, publish_body, status_error, write_field, RegistryClient, RegistryError};

#[test]
fn client_constructs_correct_urls() {
    let client = RegistryClient::new("http://localhost:8000");
    assert_eq!(client.base_url, "http://localhost:8000");

    let client2 = RegistryClient::new("http://localhost:8000/");
    assert_eq!(client2.base_url, "http://localhost:8000");
}

#[test]
fn build_multipart_body_is_well_formed() {
    let boundary = "test-boundary-123";
    let mut body = Vec::new();

    write_field(&mut body, boundary, "owner", None, b"testuser");
    write_field(
        &mut body,
        boundary,
        "archive",
        Some(("pkg.harbor", "application/octet-stream")),
        b"fake-archive-bytes",
    );
    body.extend_from_slice(format!("--{boundary}--\r\n").as_bytes());

    let as_str = String::from_utf8(body).unwrap();
    assert!(as_str.contains("--test-boundary-123"));
    assert!(as_str.contains("Content-Disposition: form-data; name=\"owner\""));
    assert!(as_str.contains("Content-Disposition: form-data; name=\"archive\"; filename=\"pkg.harbor\""));
    assert!(as_str.contains("Content-Type: application/octet-stream"));
    assert!(as_str.contains("fake-archive-bytes"));
    assert!(as_str.contains("--test-boundary-123--"));
}

#[test]
fn text_field_has_exact_layout() {
    let mut body = Vec::new();
    write_field(&mut body, "b", "owner", None, b"me");
    assert_eq!(body, b"--b\r\nContent-Disposition: form-data; name=\"owner\"\r\n\r\nme\r\n".to_vec());
}

#[test]
fn every_trailing_slash_is_dropped_and_urls_are_joined() {
    let c = RegistryClient::new("https://r.example.com///");
    assert_eq!(c.base_url, "https://r.example.com");
    assert_eq!(c.login_url(), "https://r.example.com/auth/token");
    assert_eq!(c.package_url("o", "n"), "https://r.example.com/packages/o/n");
    assert_eq!(c.version_url("o", "n", "1.0.0"), "https://r.example.com/packages/o/n/1.0.0");
    assert_eq!(c.download_url("o", "n", "1.0.0"), "https://r.example.com/download/o/n/1.0.0");
    assert_eq!(c.publish_url(), "https://r.example.com/packages");
    assert_eq!(bearer("tok"), "Bearer tok");
}

#[test]
fn status_401_is_an_auth_error_and_others_are_api_errors() {
    assert_eq!(status_error(401, Some("bad token".to_string())), RegistryError::Auth("bad token".to_string()));
    assert_eq!(
        status_error(409, None),
        RegistryError::Api { status: 409, message: "registry returned status 409".to_string() }
    );
    assert_eq!(
        status_error(422, Some("invalid".to_string())),
        RegistryError::Api { status: 422, message: "invalid".to_string() }
    );
}

#[test]
fn publish_body_has_all_four_fields_and_the_closing_boundary() {
    let body = publish_body("B", "me", "pkg", b"ARCH", b"LOCK");
    let s = String::from_utf8(body).unwrap();
    assert!(s.starts_with("--B\r\nContent-Disposition: form-data; name=\"owner\"\r\n\r\nme\r\n"));
    assert!(s.contains("name=\"archive\"; filename=\"archive.harbor\"\r\nContent-Type: application/octet-stream\r\n\r\nARCH\r\n"));
    assert!(s.contains("name=\"lockfile\"; filename=\"harbor.lock\"\r\nContent-Type: application/toml\r\n\r\nLOCK\r\n"));
    assert!(s.ends_with("--B--\r\n"));
}

#[test]
fn yank_target_splits_at_the_first_slash() {
    assert_eq!(yank_target(" demo/echo ").unwrap(), ("demo".to_string(), "echo".to_string()));
    assert_eq!(yank_target("bare").unwrap_err(), "yank target must be in owner/name format, got \"bare\"");
}
