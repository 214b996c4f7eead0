use easyproject_mcp_server::config::AppConfig;
use easyproject_mcp_server::registry::ToolRegistry;
use easyproject_mcp_server::server::{McpServer, SessionStep};
use easyproject_mcp_server::protocol::{McpMessage, JsonRpcRequest};
use easyproject_mcp_server::json::{parse_json_text, JsonValue};

fn fresh_server() -> McpServer {
    let config = AppConfig::default();
    let registry = ToolRegistry::new(&config.tools);
    McpServer::new(
        registry,
        config.server.name.clone(),
        config.server.version.clone(),
        "A bridge to the project management API.".to_string(),
    )
}

fn request(method: &str, params: Option<&str>, id: i64) -> McpMessage {
    McpMessage::Request(JsonRpcRequest {
        jsonrpc: "2.0".to_string(),
        method: method.to_string(),
        params: params.map(|p| parse_json_text(p).unwrap()),
        id: Some(JsonValue::Num(id.to_string())),
    })
}

fn initialize_message(id: i64) -> McpMessage {
    request(
        "initialize",
        Some(
            r#"{"protocolVersion":"2024-11-05","capabilities":{},"clientInfo":{"name":"probe","version":"0.1"}}"#,
        ),
        id,
    )
}

#[test]
fn test_config_loading() {
    let config = AppConfig::default();

    assert_eq!(config.server.name, "EasyProject MCP Server");
    assert_eq!(config.server.version, "1.0.0");
    assert!(config.tools.projects.enabled);
    assert!(config.tools.issues.enabled);
    assert!(config.tools.users.enabled);
    assert!(config.tools.time_entries.enabled);
    assert!(config.tools.reports.enabled);
}

#[test]
fn test_config_validation() {
    let mut config = AppConfig::default();

    config.easyproject.api_key = Some("test-key".to_string());
    assert!(config.validate().is_ok());

    config.easyproject.base_url = "not-a-url".to_string();
    assert!(config.validate().is_err());
}

#[test]
fn test_tool_registry_initialization() {
    let config = AppConfig::default();
    let registry = ToolRegistry::new(&config.tools);

    assert!(registry.has_tool("list_projects"));
    assert!(registry.has_tool("get_project"));
    assert!(registry.has_tool("create_project"));

    assert!(registry.has_tool("list_issues"));
    assert!(registry.has_tool("get_issue"));
    assert!(registry.has_tool("create_issue"));
    assert!(registry.has_tool("assign_issue"));
    assert!(registry.has_tool("complete_task"));

    assert!(registry.has_tool("list_users"));
    assert!(registry.has_tool("get_user"));
    assert!(registry.has_tool("get_user_workload"));

    assert!(registry.has_tool("list_time_entries"));
    assert!(registry.has_tool("log_time"));
    assert!(registry.has_tool("update_time_entry"));

    assert!(registry.has_tool("generate_project_report"));
    assert!(registry.has_tool("get_dashboard_data"));

    assert!(registry.tool_count() > 10);
}

#[test]
fn test_tool_list_generation() {
    let config = AppConfig::default();
    let registry = ToolRegistry::new(&config.tools);

    let tools = registry.list_tools();

    assert!(!tools.is_empty());

    for tool in tools {
        assert!(!tool.name.is_empty());
        assert!(!tool.description.is_empty());
        assert_eq!(tool.input_schema.schema_type, "object");
    }
}

#[test]
fn test_invalid_tool_execution() {
    let mut server = fresh_server();
    match server.handle_message(initialize_message(1)) {
        SessionStep::Reply(resp) => assert!(resp.error.is_none()),
        _ => panic!("the handshake must be answered"),
    }

    let step = server.handle_message(request(
        "tools/call",
        Some(r#"{"name":"nonexistent_tool"}"#),
        2,
    ));
    match step {
        SessionStep::Reply(resp) => {
            let err = resp.error.expect("an unregistered tool must be refused");
            assert_eq!(err.code, -32001);
        },
        _ => panic!("an unregistered tool must never be executed"),
    }
}

#[test]
fn test_tool_execution_without_required_args() {
    // A registered tool called without its required argument: the argument
    // decoder refuses, and the failure travels in band as a tool result
    // marked as an error.
    let id_result = easyproject_mcp_server::tools::id_arg(None);
    assert!(id_result.is_err());

    let call_result = McpServer::tool_failure(id_result.unwrap_err());
    assert_eq!(call_result.is_error, Some(true));
}

#[test]
fn call_before_initialize_is_rejected_and_session_survives() {
    let mut server = fresh_server();

    // Scenario: a tools/call arrives before the handshake.
    let step = server.handle_message(request(
        "tools/call",
        Some(r#"{"name":"list_projects"}"#),
        1,
    ));
    match step {
        SessionStep::Reply(resp) => {
            let err = resp.error.expect("an early call must be refused");
            assert_eq!(err.code, -32600);
        },
        _ => panic!("an early call must not be executed"),
    }

    // The session is still alive: the next initialize succeeds.
    match server.handle_message(initialize_message(2)) {
        SessionStep::Reply(resp) => {
            assert!(resp.error.is_none());
            assert!(resp.result.is_some());
        },
        _ => panic!("the handshake must be answered"),
    }

    // And a registered tool is now dispatched.
    let step = server.handle_message(request(
        "tools/call",
        Some(r#"{"name":"get_project","arguments":{"id":7}}"#),
        3,
    ));
    match step {
        SessionStep::CallTool { name, .. } => assert_eq!(name, "get_project"),
        _ => panic!("a registered tool must be dispatched"),
    }
}

#[test]
fn tools_list_is_idempotent_across_calls() {
    let mut server = fresh_server();
    server.handle_message(initialize_message(1));

    let first = match server.handle_message(request("tools/list", None, 2)) {
        SessionStep::Reply(resp) => {
            easyproject_mcp_server::json::json_to_string(&resp.result.unwrap())
        },
        _ => panic!("tools/list must be answered"),
    };

    // An intervening tools/call dispatch.
    server.handle_message(request(
        "tools/call",
        Some(r#"{"name":"get_project","arguments":{"id":7}}"#),
        3,
    ));

    let second = match server.handle_message(request("tools/list", None, 4)) {
        SessionStep::Reply(resp) => {
            easyproject_mcp_server::json::json_to_string(&resp.result.unwrap())
        },
        _ => panic!("tools/list must be answered"),
    };

    assert_eq!(first, second);
}

#[test]
fn notifications_are_never_answered() {
    let mut server = fresh_server();
    let step = server.handle_message(McpMessage::Notification(JsonRpcRequest {
        jsonrpc: "2.0".to_string(),
        method: "notifications/initialized".to_string(),
        params: None,
        id: None,
    }));
    assert!(matches!(step, SessionStep::Quiet));
}

#[test]
fn unknown_methods_are_refused_with_the_method_error() {
    let mut server = fresh_server();
    server.handle_message(initialize_message(1));
    let step = server.handle_message(request("resources/list", None, 2));
    match step {
        SessionStep::Reply(resp) => assert_eq!(resp.error.unwrap().code, -32601),
        _ => panic!("an unknown method must be refused"),
    }
}

#[test]
fn every_tool_announces_its_argument_schema() {
    let config = AppConfig::default();
    let registry = ToolRegistry::new(&config.tools);
    for tool in registry.list_tools() {
        assert!(
            tool.input_schema.properties.is_some(),
            "tool {} announces no argument schema",
            tool.name
        );
        assert_eq!(tool.input_schema.additional_properties, Some(false));
    }
    // The announced body carries the properties on the wire.
    let mut server = fresh_server();
    server.handle_message(initialize_message(1));
    match server.handle_message(request("tools/list", None, 2)) {
        SessionStep::Reply(resp) => {
            let body = easyproject_mcp_server::json::json_to_string(&resp.result.unwrap());
            assert!(body.contains("\"properties\""));
            assert!(body.contains("project_id"));
        },
        _ => panic!("tools/list must be answered"),
    }
}
