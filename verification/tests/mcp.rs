use moss::config::{Config, McpConfig, McpServerConfig, McpToolDescriptor, McpToolServerConfig, McpTransport};
use moss::error::ServerError;
use moss::mcp::{
    record_connection, remote_url, url_check,
    format_mcp_tool_name, plan_mcp_connection, service_name_of, trim_end_slashes, url_with_key, McpConnectPlan,
};
use moss::mcp_handlers::{
    api_key_updated_response, decide_toggle, disable_server, disabled_response, enable_failed_response,
    enabled_response, find_server_index, list_mcp_servers, list_mcp_tools, needs_reconnect,
    reconnect_failed_response, replace_server, toggle_early_response, update_server_api_key, ToggleDecision,
};

fn server(name: &str, transport: McpTransport, url: Option<&str>) -> McpToolServerConfig {
    McpToolServerConfig {
        name: name.to_string(),
        transport,
        url: url.map(|s| s.to_string()),
        oauth_url: None,
        command: None,
        args: None,
        env: None,
        working_dir: None,
        enable: true,
        api_key: None,
        api_key_param: None,
        server_name: None,
        tools: None,
        fallback_message: None,
    }
}

fn tool(name: &str, description: Option<&str>) -> McpToolDescriptor {
    McpToolDescriptor {
        name: name.to_string(),
        description: description.map(|s| s.to_string()),
        input_schema: Some("{\"type\":\"object\"}".to_string()),
    }
}

fn config_with(servers: Vec<McpToolServerConfig>) -> Config {
    Config { mcp: Some(McpConfig { server: McpServerConfig { tool_servers: servers } }), ..Config::default() }
}

fn op_message(e: ServerError) -> String {
    match e {
        ServerError::Operation(m) => m,
        _ => panic!("expected an operation error"),
    }
}

// ---------------------------------------------------------------------------
// connection planning
// ---------------------------------------------------------------------------

#[test]
fn tool_names_are_prefixed() {
    assert_eq!(format_mcp_tool_name("weather-api", "get_weather"), "mcp__weather-api__get_weather");
}

#[test]
fn trailing_slashes_are_trimmed() {
    assert_eq!(trim_end_slashes("http://x/sse///"), "http://x/sse");
    assert_eq!(trim_end_slashes("http://x/sse"), "http://x/sse");
    assert_eq!(trim_end_slashes("///"), "");
}

#[test]
fn api_key_is_appended_percent_encoded() {
    let key = Some("a b/c~é".to_string());
    let param = Some("key".to_string());
    assert_eq!(url_with_key("http://x/sse/", &key, &param), "http://x/sse?key=a%20b%2Fc~%C3%A9");
    assert_eq!(url_with_key("http://x/sse?v=1", &key, &param), "http://x/sse?v=1&key=a%20b%2Fc~%C3%A9");
    assert_eq!(url_with_key("http://x/sse/", &Some(String::new()), &param), "http://x/sse");
    assert_eq!(url_with_key("http://x/sse/", &key, &None), "http://x/sse");
}

#[test]
fn connection_plans() {
    let mut s = server("weather", McpTransport::Sse, Some("http://localhost:8000/sse/"));
    match plan_mcp_connection(&s).unwrap() {
        McpConnectPlan::Remote { url, use_oauth } => {
            assert_eq!(url, "http://localhost:8000/sse");
            assert!(!use_oauth);
        },
        other => panic!("unexpected plan {:?}", other),
    }

    s.enable = false;
    assert!(matches!(plan_mcp_connection(&s).unwrap(), McpConnectPlan::Disabled));

    let mut both = server("both", McpTransport::StreamHttp, Some("http://a"));
    both.oauth_url = Some("http://b".to_string());
    assert_eq!(
        op_message(plan_mcp_connection(&both).unwrap_err()),
        "Invalid configuration for mcp server 'both': Both url and oauth_url cannot be set at the same time"
    );

    let neither = server("neither", McpTransport::Sse, None);
    assert_eq!(
        op_message(plan_mcp_connection(&neither).unwrap_err()),
        "Invalid configuration for mcp server 'neither': Either url or oauth_url must be set"
    );

    let stdio = server("local", McpTransport::Stdio, None);
    assert_eq!(
        op_message(plan_mcp_connection(&stdio).unwrap_err()),
        "Invalid configuration for stdio mcp server 'local': 'command' is required"
    );
    let mut stdio_ok = server("local", McpTransport::Stdio, None);
    stdio_ok.command = Some("npx".to_string());
    match plan_mcp_connection(&stdio_ok).unwrap() {
        McpConnectPlan::Stdio { command } => assert_eq!(command, "npx"),
        other => panic!("unexpected plan {:?}", other),
    }
}

#[test]
fn invalid_urls_are_refused_unless_oauth() {
    let bad = server("bad", McpTransport::StreamHttp, Some("not a url"));
    let message = op_message(plan_mcp_connection(&bad).unwrap_err());
    assert!(message.starts_with("Invalid mcp tools stream-http URL: not a url. "));

    let bad_sse = server("bad", McpTransport::Sse, Some("::"));
    assert!(op_message(plan_mcp_connection(&bad_sse).unwrap_err()).starts_with("Invalid mcp tools sse URL: ::. "));

    let mut oauth = server("o", McpTransport::Sse, None);
    oauth.oauth_url = Some("not a url".to_string());
    match plan_mcp_connection(&oauth).unwrap() {
        McpConnectPlan::Remote { url, use_oauth } => {
            assert_eq!(url, "not a url");
            assert!(use_oauth);
        },
        other => panic!("unexpected plan {:?}", other),
    }
}

#[test]
fn service_names() {
    assert_eq!(service_name_of(Some("reported".to_string()), "configured"), "reported");
    assert_eq!(service_name_of(None, "configured"), "configured");
}

// ---------------------------------------------------------------------------
// management API
// ---------------------------------------------------------------------------

#[test]
fn tools_are_listed_with_counts() {
    let mut a = server("a", McpTransport::Sse, Some("http://a"));
    a.server_name = Some("weather-api".to_string());
    a.tools = Some(vec![tool("get_weather", Some("Get current weather")), tool("forecast", None)]);
    let mut b = server("b", McpTransport::Sse, Some("http://b"));
    b.enable = false;
    b.tools = Some(vec![tool("t", None)]);
    let config = config_with(vec![a, b]);

    let list = list_mcp_tools(&config);
    assert_eq!(list.total, 3);
    assert_eq!(list.enabled_count, 2);
    assert_eq!(list.tools[0].name, "mcp__weather-api__get_weather");
    assert_eq!(list.tools[0].display_name, "get_weather");
    assert_eq!(list.tools[0].server_name, "weather-api");
    assert_eq!(list.tools[0].description, Some("Get current weather".to_string()));
    assert!(list.tools[0].enabled);
    assert_eq!(list.tools[2].name, "mcp__b__t");
    assert!(!list.tools[2].enabled);

    let empty = list_mcp_tools(&Config::default());
    assert_eq!(empty.total, 0);
    assert_eq!(empty.enabled_count, 0);
}

#[test]
fn servers_are_listed_sanitized() {
    let mut a = server("a", McpTransport::Sse, Some("http://a"));
    a.api_key = Some("secret".to_string());
    a.tools = Some(vec![tool("x", None)]);
    let mut b = server("b", McpTransport::Stdio, None);
    b.enable = false;
    let list = list_mcp_servers(&config_with(vec![a, b]));
    assert_eq!(list.total, 2);
    assert_eq!(list.enabled_count, 1);
    assert_eq!(list.servers[0].transport, "sse");
    assert_eq!(list.servers[0].tools_count, 1);
    assert!(!format!("{:?}", list.servers).contains("secret"));
}

#[test]
fn toggle_decisions() {
    let config = config_with(vec![server("a", McpTransport::Sse, Some("http://a"))]);
    assert!(matches!(decide_toggle(&Config::default(), "a", true), ToggleDecision::NoMcpConfig));
    assert!(matches!(decide_toggle(&config, "zzz", true), ToggleDecision::NotFound));
    assert!(matches!(decide_toggle(&config, "a", false), ToggleDecision::Disable(0)));

    let early = toggle_early_response(decide_toggle(&config, "a", true), "a", true).unwrap();
    assert_eq!(early.0, 200);
    assert!(early.1.success);
    assert_eq!(early.1.message, "MCP server 'a' is already enabled");

    let missing = toggle_early_response(decide_toggle(&config, "zzz", true), "zzz", true).unwrap();
    assert_eq!(missing.0, 404);
    assert_eq!(missing.1.message, "MCP server 'zzz' not found");

    let no_mcp = toggle_early_response(ToggleDecision::NoMcpConfig, "a", true).unwrap();
    assert_eq!(no_mcp.1.message, "MCP configuration not found");

    assert!(toggle_early_response(ToggleDecision::Enable(0), "a", true).is_none());
}

#[test]
fn disabling_twice_is_already_done() {
    let mut a = server("a", McpTransport::Sse, Some("http://a"));
    a.server_name = Some("svc".to_string());
    a.tools = Some(vec![tool("x", None)]);
    let mut config = config_with(vec![server("z", McpTransport::Sse, Some("http://z")), a]);

    let k = find_server_index(&config.mcp.as_ref().unwrap().server.tool_servers, "a").unwrap();
    assert_eq!(k, 1);
    let done = disable_server(&mut config, k);
    assert_eq!(done.transport, McpTransport::Sse);
    assert_eq!(done.service_name, "svc");
    assert!(!done.server.enable);
    assert_eq!(done.server.tools_count, 0);
    let s = &config.mcp.as_ref().unwrap().server.tool_servers[1];
    assert!(!s.enable && s.tools.is_none() && s.server_name.is_none());

    let again = toggle_early_response(decide_toggle(&config, "a", false), "a", false).unwrap();
    assert_eq!(again.1.message, "MCP server 'a' is already disabled");
    assert_eq!(disabled_response("a", done.server).message, "MCP server 'a' disabled successfully");
}

#[test]
fn replacing_a_server_after_connecting() {
    let mut config = config_with(vec![server("a", McpTransport::Sse, Some("http://a"))]);
    let mut connected = server("a", McpTransport::Sse, Some("http://a"));
    connected.tools = Some(vec![tool("x", None)]);
    assert!(replace_server(&mut config, connected));
    assert_eq!(config.mcp.as_ref().unwrap().server.tool_servers[0].tools.as_ref().unwrap().len(), 1);
    assert!(!replace_server(&mut config, server("other", McpTransport::Sse, None)));
}

#[test]
fn api_key_updates() {
    let mut a = server("a", McpTransport::StreamHttp, Some("http://a"));
    a.api_key = Some("old".to_string());
    a.api_key_param = Some("key".to_string());
    let mut config = config_with(vec![a]);

    let change = update_server_api_key(&mut config, "a", "new".to_string(), None).unwrap();
    assert!(change.was_enabled);
    assert_eq!(change.transport, McpTransport::StreamHttp);
    assert_eq!(change.service_name, "a");
    assert!(needs_reconnect(&change));
    let s = &config.mcp.as_ref().unwrap().server.tool_servers[0];
    assert_eq!(s.api_key, Some("new".to_string()));
    assert_eq!(s.api_key_param, Some("key".to_string()));

    update_server_api_key(&mut config, "a", String::new(), Some(String::new())).unwrap();
    let s = &config.mcp.as_ref().unwrap().server.tool_servers[0];
    assert!(s.api_key.is_none());
    assert!(s.api_key_param.is_none());

    let (status, response) = update_server_api_key(&mut config, "zzz", "k".to_string(), None).unwrap_err();
    assert_eq!(status, 404);
    assert_eq!(response.message, "MCP server 'zzz' not found");
    let (status, response) = update_server_api_key(&mut Config::default(), "a", "k".to_string(), None).unwrap_err();
    assert_eq!(status, 404);
    assert_eq!(response.message, "MCP configuration not found");

    assert_eq!(api_key_updated_response("a").message, "API key updated for MCP server 'a'");
    assert_eq!(
        reconnect_failed_response("refused").message,
        "API key updated but reconnection failed: refused. Server has been disabled."
    );
}

#[test]
fn enable_responses() {
    let config = config_with(vec![server("a", McpTransport::Sse, Some("http://a"))]);
    let shown = match toggle_early_response(decide_toggle(&config, "a", true), "a", true) {
        Some((_, r)) => r.server,
        None => panic!(),
    };
    let ok = enabled_response("a", shown);
    assert!(ok.success);
    assert_eq!(ok.message, "MCP server 'a' enabled successfully");
    let failed = enable_failed_response("a", "timeout", ok.server);
    assert!(!failed.success);
    assert_eq!(failed.message, "Failed to connect MCP server 'a': timeout");
}

// ---------------------------------------------------------------------------
// server errors
// ---------------------------------------------------------------------------

#[test]
fn server_error_messages_and_responses() {
    let e = ServerError::NotFoundServer("chat".to_string());
    assert_eq!(
        e.to_string(),
        "Not found available server. Please register a(n) chat server via the `/admin/servers/register` endpoint."
    );
    let parts = e.response_parts();
    assert_eq!(parts.status, 404);
    assert_eq!(parts.error_type, "not_found");
    assert_eq!(parts.param, Some("server_kind".to_string()));
    assert_eq!(parts.code, Some("not_found_server".to_string()));

    let e = ServerError::SubtaskTimeout { subtask_id: 3, timeout_secs: 60 };
    assert_eq!(e.to_string(), "Subtask '3' timeout after 60 seconds");
    assert_eq!(e.response_parts().status, 504);

    let e = ServerError::MaxIterationsExceeded(10);
    assert_eq!(e.to_string(), "React loop exceeded maximum iterations (10)");
    assert_eq!(ServerError::EmptyPlan.response_parts().status, 400);
}

#[test]
fn connection_summary_names_failed_servers() {
    assert_eq!(moss::mcp::connect_summary(2, 3, &vec![]), None);
    assert_eq!(
        moss::mcp::connect_summary(1, 3, &vec!["a".to_string(), "b".to_string()]),
        Some("MCP servers: 1/3 connected, 2 failed (a, b). Failed servers have been disabled.".to_string())
    );
}

#[test]
fn recording_a_connection_keeps_the_settings() {
    let mut s = server("search", McpTransport::StreamHttp, Some("http://localhost:9000/mcp"));
    record_connection(&mut s, "Search Service".to_string(), vec![tool("find", Some("finds"))]);
    assert_eq!(s.server_name, Some("Search Service".to_string()));
    assert_eq!(s.tools.as_ref().map(|t| t.len()), Some(1));
    assert_eq!(s.name, "search");
    assert_eq!(s.url, Some("http://localhost:9000/mcp".to_string()));
}

#[test]
fn remote_urls_carry_the_key() {
    let mut s = server("w", McpTransport::Sse, Some("http://localhost:8000/sse"));
    s.api_key = Some("a b".to_string());
    s.api_key_param = Some("api_key".to_string());
    let (url, oauth) = remote_url(&s).ok().unwrap();
    assert_eq!(url, "http://localhost:8000/sse?api_key=a%20b");
    assert!(!oauth);
    s.oauth_url = Some("http://o".to_string());
    assert!(remote_url(&s).is_err());
}

#[test]
fn url_check_reports_parse_errors_unless_oauth() {
    assert!(url_check(McpTransport::Sse, "http://ok", false, None).is_none());
    assert!(url_check(McpTransport::Sse, "bad", true, Some("relative URL without a base".to_string())).is_none());
    assert!(url_check(McpTransport::StreamHttp, "bad", false, Some("relative URL without a base".to_string())).is_some());
}

#[test]
fn a_service_name_is_admitted_once() {
    let mut registered: Vec<String> = Vec::new();
    assert!(moss::mcp::admit_service(&mut registered, "weather").is_ok());
    assert_eq!(registered, vec!["weather".to_string()]);
    match moss::mcp::admit_service(&mut registered, "weather") {
        Err(ServerError::Operation(m)) => assert_eq!(m, "Mcp client weather already exists"),
        _ => panic!("expected a refusal"),
    }
    assert_eq!(registered.len(), 1);
}
