use harbor_core::ui::{name_request, route_panel, run_command_for, set_key_request, terminal_script, PackageSource, PanelRoute};

#[test]
fn run_commands_follow_the_package_source() {
    assert_eq!(
        run_command_for(&PackageSource::Registry { owner: "demo".to_string() }, "echo"),
        ("registry".to_string(), "xelian run demo/echo".to_string())
    );
    assert_eq!(
        run_command_for(&PackageSource::Github { owner: "o".to_string(), repo: "r".to_string() }, "x"),
        ("github".to_string(), "xelian run https://github.com/o/r".to_string())
    );
    assert_eq!(run_command_for(&PackageSource::Local, "pkg"), ("local".to_string(), "xelian run pkg".to_string()));
}

#[test]
fn terminal_script_escapes_quotes_and_backslashes() {
    assert_eq!(
        terminal_script("say \"hi\" \\o/"),
        "tell application \"Terminal\" to do script \"say \\\"hi\\\" \\\\o/\""
    );
}


#[test]
fn panel_routes_ignore_the_query_string() {
    assert_eq!(route_panel("GET", "/"), PanelRoute::Index);
    assert_eq!(route_panel("GET", "/api/packages?x=1"), PanelRoute::Packages);
    assert_eq!(route_panel("GET", "/api/keys"), PanelRoute::Keys);
    assert_eq!(route_panel("POST", "/api/keys/set"), PanelRoute::SetKey);
    assert_eq!(route_panel("POST", "/api/keys/remove"), PanelRoute::RemoveKey);
    assert_eq!(route_panel("POST", "/api/run"), PanelRoute::Run);
    assert_eq!(route_panel("POST", "/api/keys"), PanelRoute::NotFound);
}

#[test]
fn key_requests_need_their_fields() {
    assert_eq!(set_key_request(Some(" OPENAI_API_KEY "), Some("sk")).unwrap(), ("OPENAI_API_KEY".to_string(), "sk".to_string()));
    assert_eq!(set_key_request(Some("  "), Some("sk")).unwrap_err(), "name and value are required");
    assert_eq!(set_key_request(Some("K"), None).unwrap_err(), "name and value are required");
    assert_eq!(name_request(Some(" K ")).unwrap(), "K");
    assert_eq!(name_request(None).unwrap_err(), "name is required");
}
