use harbor_core::gateway::{is_response_to, route_gateway, select_log_files, status_line, GatewayRoute};
use harbor_core::gateway::{backend_command, backend_version, require_mcp, BackendCommand};
use harbor_core::manifest::{Dependencies, Language, Manifest, PackageType};
use harbor_core::gateway::{
    alias_collision, decide_mcp, exposed_tool_name, log_file_name, parse_ref, port_choice, sanitize_alias,
    split_tool_name, tail_lines, tools_list_failure, GatewayConfig, McpStep, DEFAULT_PORT,
};
use harbor_core::gateway::{immediate_body, reply_text, tools_call_body, tools_list_body, BackendAnswer, McpBody};
use serde_json::Value;

/// Answers one client message the way the gateway does with no backends.
fn handle(msg: &str) -> Option<Value> {
    let msg: Value = serde_json::from_str(msg).unwrap();
    let id = msg.get("id").cloned().unwrap_or(Value::Null);
    let method = msg.get("method").and_then(Value::as_str).unwrap_or("");
    let protocol = msg.pointer("/params/protocolVersion").and_then(Value::as_str);
    let tool = msg.pointer("/params/name").and_then(Value::as_str);
    let step = decide_mcp(!id.is_null(), method, protocol, tool, &[]);
    let body = immediate_body(&step, "0.1.0")?;
    let text = reply_text(&serde_json::to_string(&id).unwrap(), &body);
    Some(serde_json::from_str(&text).unwrap())
}

#[test]
fn parse_ref_accepts_owner_name_only() {
    assert!(parse_ref("demo/echo", false).is_ok());
    assert!(parse_ref("not-a-ref", false).is_err());
    assert!(parse_ref("https://github.com/a/b", false).is_err());
    assert!(parse_ref("../evil/pkg", false).is_err());
}

#[test]
fn sanitize_alias_maps_unsafe_chars() {
    assert_eq!(sanitize_alias("my-server"), "my-server");
    assert_eq!(sanitize_alias("weird.name+x"), "weird-name-x");
}

#[test]
fn mcp_initialize_and_unknown_method() {
    let resp = handle(
        r#"{"jsonrpc": "2.0", "id": 1, "method": "initialize", "params": {"protocolVersion": "2025-03-26"}}"#,
    )
    .unwrap();
    assert_eq!(resp["result"]["protocolVersion"], "2025-03-26");
    assert_eq!(resp["result"]["serverInfo"]["name"], "xelian-gateway");
    assert_eq!(resp["id"], 1);
    assert_eq!(resp["jsonrpc"], "2.0");

    let resp = handle(r#"{"jsonrpc": "2.0", "id": 2, "method": "resources/list"}"#).unwrap();
    assert_eq!(resp["error"]["code"], -32601);
    assert_eq!(resp["id"], 2);
    assert!(resp.get("result").is_none());
}

#[test]
fn mcp_decisions_of_initialize_and_unknown_method() {
    let resp = decide_mcp(true, "initialize", Some("2025-03-26"), None, &[]);
    assert_eq!(resp, McpStep::Initialize { protocol_version: "2025-03-26".to_string() });

    let resp = decide_mcp(true, "resources/list", None, None, &[]);
    match resp {
        McpStep::Error { code, message } => {
            assert_eq!(code, -32601);
            assert_eq!(message, "method \"resources/list\" is not supported by the gateway (tools only)");
        }
        other => panic!("got {other:?}"),
    }
}

#[test]
fn notifications_get_no_response() {
    let resp = handle(r#"{"jsonrpc": "2.0", "method": "notifications/initialized"}"#);
    assert!(resp.is_none());
    let resp = decide_mcp(false, "notifications/initialized", None, None, &[]);
    assert_eq!(resp, McpStep::NoReply);
}

#[test]
fn tools_call_with_unprefixed_name_is_a_clear_error() {
    let resp =
        handle(r#"{"jsonrpc": "2.0", "id": 3, "method": "tools/call", "params": {"name": "plain-tool"}}"#).unwrap();
    let msg = resp["error"]["message"].as_str().unwrap();
    assert!(msg.contains("<package>__<tool>"), "{msg}");
    assert_eq!(resp["error"]["code"], -32602);
    assert_eq!(resp["id"], 3);
}

#[test]
fn reply_echoes_string_ids_and_pong() {
    let resp = handle(r#"{"jsonrpc": "2.0", "id": "abc", "method": "ping"}"#).unwrap();
    assert_eq!(resp["id"], "abc");
    assert!(resp["result"].as_object().unwrap().is_empty());
    assert!(resp.get("error").is_none());
}

#[test]
fn tools_list_and_call_bodies() {
    let tools = vec![r#"{"name":"echo__say"}"#.to_string(), r#"{"name":"w__f"}"#.to_string()];
    let body = tools_list_body(&tools, &["x: down".to_string()]);
    let v: Value = serde_json::from_str(&reply_text("7", &body)).unwrap();
    assert_eq!(v["result"]["tools"][1]["name"], "w__f");
    assert_eq!(v["id"], 7);
    let body = tools_list_body(&[], &["a: boom".to_string(), "b: gone".to_string()]);
    assert_eq!(body, McpBody::Error { code: -32000, message: "all backends failed: a: boom; b: gone".to_string() });
    let body = tools_call_body("echo", &BackendAnswer::Failed("broken pipe".to_string()));
    let v: Value = serde_json::from_str(&reply_text("9", &body)).unwrap();
    assert_eq!(v["error"]["message"], "backend echo failed: broken pipe");
    assert_eq!(v["error"]["code"], -32000);
    let body = tools_call_body(
        "echo",
        &BackendAnswer::Replied { result: None, error: Some(r#"{"code":1,"message":"m"}"#.to_string()) },
    );
    let v: Value = serde_json::from_str(&reply_text("9", &body)).unwrap();
    assert_eq!(v["error"]["code"], 1);
    assert_eq!(reply_text("9", &McpBody::Empty), r#"{"jsonrpc":"2.0","id":9}"#);
}

#[test]
fn tools_call_is_routed_by_alias() {
    let aliases = vec!["echo".to_string(), "weather".to_string()];
    assert_eq!(
        decide_mcp(true, "tools/call", None, Some("weather__forecast__daily"), &aliases),
        McpStep::CallTool { backend: 1, tool: "forecast__daily".to_string() }
    );
    match decide_mcp(true, "tools/call", None, Some("nope__x"), &aliases) {
        McpStep::Error { code, message } => {
            assert_eq!(code, -32602);
            assert_eq!(message, "no gateway backend named \"nope\" (see GET /status)");
        }
        other => panic!("got {other:?}"),
    }
    assert_eq!(decide_mcp(true, "ping", None, None, &aliases), McpStep::Pong);
    assert_eq!(decide_mcp(true, "tools/list", None, None, &aliases), McpStep::ListTools);
    assert_eq!(
        decide_mcp(true, "initialize", None, None, &aliases),
        McpStep::Initialize { protocol_version: "2025-06-18".to_string() }
    );
}

#[test]
fn tool_names_split_at_the_first_separator() {
    assert_eq!(split_tool_name("a__b__c"), Some(("a".to_string(), "b__c".to_string())));
    assert_eq!(split_tool_name("a_b"), None);
    assert_eq!(exposed_tool_name("echo", "say"), "echo__say");
}

#[test]
fn config_add_and_remove() {
    let mut c = GatewayConfig::empty();
    assert!(c.add("demo/echo"));
    assert!(!c.add("demo/echo"));
    assert!(c.add("demo/other"));
    assert_eq!(c.packages, vec!["demo/echo".to_string(), "demo/other".to_string()]);
    assert!(c.remove("demo/echo"));
    assert!(!c.remove("demo/echo"));
    assert_eq!(c.packages, vec!["demo/other".to_string()]);
}

#[test]
fn port_and_log_names() {
    assert_eq!(port_choice(Some(1), Some(2)), 1);
    assert_eq!(port_choice(None, Some(2)), 2);
    assert_eq!(port_choice(None, None), DEFAULT_PORT);
    assert_eq!(DEFAULT_PORT, 11432);
    assert_eq!(log_file_name("demo", "echo"), "demo-echo.log");
}

#[test]
fn collisions_and_list_failures() {
    let a = vec!["x".to_string(), "y".to_string(), "x".to_string()];
    assert_eq!(alias_collision(&a), Some((0, 2)));
    assert_eq!(alias_collision(&["x".to_string(), "y".to_string()]), None);
    assert_eq!(
        tools_list_failure(0, &["a: down".to_string(), "b: timeout".to_string()]),
        Some("all backends failed: a: down; b: timeout".to_string())
    );
    assert_eq!(tools_list_failure(3, &["a: down".to_string()]), None);
    assert_eq!(tools_list_failure(0, &[]), None);
}

#[test]
fn log_tail_keeps_the_last_lines_in_order() {
    assert_eq!(tail_lines("a\nb\nc\n", 2), vec!["b".to_string(), "c".to_string()]);
    assert_eq!(tail_lines("a\r\nb", 5), vec!["a".to_string(), "b".to_string()]);
    assert!(tail_lines("", 3).is_empty());
}

fn mcp_manifest(language: Language) -> Manifest {
    Manifest {
        name: "echo".to_string(),
        version: "1.0.0".to_string(),
        description: "d".to_string(),
        package_type: PackageType::Mcp,
        language,
        runtime: ">=3.11".to_string(),
        entrypoint: "server.py".to_string(),
        license: "MIT".to_string(),
        permissions: vec![],
        features: vec![],
        os: vec![],
        commands: vec![],
        dependencies: Dependencies { manifest: "pyproject.toml".to_string(), lockfile: None },
    }
}

#[test]
fn backend_commands_per_language() {
    let py = mcp_manifest(Language::Python);
    assert_eq!(
        backend_command(&py, "/pkg", "/env", "/bin", true, false).unwrap(),
        BackendCommand { program: "/env/bin/python".to_string(), args: vec!["/pkg/server.py".to_string()], cwd: "/pkg".to_string() }
    );
    assert_eq!(
        backend_command(&py, "/pkg", "/env", "/bin", false, false).unwrap_err(),
        "Python binary not found at /env/bin/python"
    );
    let node = mcp_manifest(Language::Node);
    let c = backend_command(&node, "/pkg", "/env", "/nb", true, true).unwrap();
    assert_eq!(c.program, "/nb/node");
    assert_eq!(c.args, vec!["--preserve-symlinks", "--preserve-symlinks-main", "/env/server.py"]);
    assert_eq!(c.cwd, "/env");
    assert_eq!(backend_command(&node, "/pkg", "/env", "/nb", true, false).unwrap_err(), "entrypoint missing at /env/server.py");
}

#[test]
fn backends_must_be_resolvable_mcp_servers() {
    assert_eq!(backend_version("demo", "echo", Some("1.2.0".to_string())).unwrap(), "1.2.0");
    assert_eq!(backend_version("demo", "echo", None).unwrap_err(), "no resolvable version of demo/echo");
    assert!(require_mcp("demo", "echo", PackageType::Mcp).is_ok());
    assert_eq!(
        require_mcp("demo", "agent", PackageType::Agent).unwrap_err(),
        "demo/agent is package-type Agent — the gateway serves MCP servers only"
    );
}

#[test]
fn gateway_http_routes() {
    assert_eq!(route_gateway("GET", "/health"), GatewayRoute::Health);
    assert_eq!(route_gateway("GET", "/status"), GatewayRoute::Status);
    assert_eq!(route_gateway("POST", "/mcp"), GatewayRoute::Mcp);
    assert_eq!(route_gateway("GET", "/mcp"), GatewayRoute::NotFound);
}

#[test]
fn responses_match_their_request_id() {
    assert!(is_response_to(3, Some(3), true, false));
    assert!(is_response_to(3, Some(3), false, true));
    assert!(!is_response_to(3, Some(3), false, false));
    assert!(!is_response_to(3, Some(4), true, false));
    assert!(!is_response_to(3, None, true, false));
}

#[test]
fn status_lines_and_log_selection() {
    assert_eq!(
        status_line("demo/echo", "1.0.0", true, 2, "echo", "/l/demo-echo.log"),
        "  demo/echo v1.0.0  up  restarts:2  tools:echo__*  log:/l/demo-echo.log"
    );
    assert!(status_line("a/b", "1", false, 0, "b", "x").contains("  DOWN  "));
    let entries: Vec<(String, String)> = ["z.log", "notes.txt", ".log", "a.log"]
        .iter()
        .map(|n| (n.to_string(), format!("/l/{n}")))
        .collect();
    let logs = select_log_files(&entries);
    assert_eq!(
        logs,
        vec![("a.log".to_string(), "/l/a.log".to_string()), ("z.log".to_string(), "/l/z.log".to_string())]
    );
}
