use vercel_mcp::registry::{RegistryError, ToolKind, ToolRegistry};
use vercel_mcp::session::{
    McpError, MyMCPServerHandler, INTERNAL_ERROR, INVALID_PARAMS, INVALID_REQUEST,
    METHOD_NOT_FOUND,
};
use vercel_mcp::tool::{
    get_test_message, string_field, ArgValue, Argument, ParamError, TestMessageParams,
};
use vercel_mcp::transport::{
    handle_stateless, serverless_config, RpcMethod, RpcOutcome, RpcRequest, RpcResponse,
    PROTOCOL_STATUS,
};

fn arg(key: &str, value: ArgValue) -> Argument {
    Argument { key: key.to_string(), value }
}

fn text_arg(key: &str, value: &str) -> Argument {
    arg(key, ArgValue::Str(value.to_string()))
}

fn call(name: &str, args: Vec<Argument>) -> RpcResponse {
    handle_stateless(&RpcRequest { id: 1, method: RpcMethod::CallTool(name.to_string(), args) })
}

fn initialized() -> MyMCPServerHandler {
    let mut h = MyMCPServerHandler::new();
    assert!(h.initialize(&"2024-11-05".to_string()).is_ok());
    h
}

fn texts(outcome: &RpcOutcome) -> Vec<String> {
    match outcome {
        RpcOutcome::ToolCalled(r) => {
            assert!(!r.is_error);
            r.content.iter().map(|c| c.text.clone()).collect()
        }
        _ => panic!("expected a tool result"),
    }
}

#[test]
fn tools_call_returns_greeting_with_param() {
    let resp = call("get_test_message", vec![text_arg("test_param", "abc")]);
    assert_eq!(resp.id, 1);
    assert_eq!(resp.http_status, 200);
    assert_eq!(texts(&resp.outcome), vec!["Hello World! Value of test_param is: abc".to_string()]);
}

#[test]
fn tools_call_ignores_extra_arguments() {
    let resp = call(
        "get_test_message",
        vec![arg("other", ArgValue::Int(3)), text_arg("test_param", "")],
    );
    assert_eq!(texts(&resp.outcome), vec!["Hello World! Value of test_param is: ".to_string()]);
}

#[test]
fn initialize_with_supported_version_declares_tools_and_instructions() {
    let resp = handle_stateless(&RpcRequest {
        id: 7,
        method: RpcMethod::Initialize("2024-11-05".to_string()),
    });
    assert_eq!(resp.id, 7);
    assert_eq!(resp.http_status, PROTOCOL_STATUS);
    match resp.outcome {
        RpcOutcome::Initialized(info) => {
            assert!(info.capabilities.tools);
            assert!(!info.capabilities.prompts);
            assert!(!info.capabilities.resources);
            assert_eq!(info.protocol_version, "2024-11-05");
            assert_eq!(info.server_info.name, "rmcp");
            assert_eq!(info.server_info.version, "0.2.1");
            assert_eq!(
                info.instructions,
                Some("This is a test MCP server. Use the `get_test_message` tool to return a test message.".to_string())
            );
        }
        _ => panic!("expected an initialize result"),
    }
}

#[test]
fn initialize_with_other_version_is_an_error() {
    let resp = handle_stateless(&RpcRequest {
        id: 2,
        method: RpcMethod::Initialize("1999-01-01".to_string()),
    });
    assert!(matches!(resp.outcome, RpcOutcome::Error(INVALID_PARAMS)));
    let mut h = MyMCPServerHandler::new();
    match h.initialize(&"1999-01-01".to_string()) {
        Err(McpError::ProtocolVersionMismatch(v)) => assert_eq!(v, "2024-11-05"),
        _ => panic!("expected a version mismatch"),
    }
    assert!(matches!(h.list_tools(), Err(McpError::NotInitialized)));
}

#[test]
fn unknown_tool_is_an_in_band_error() {
    let resp = call("no_such_tool", vec![text_arg("test_param", "abc")]);
    assert!(matches!(resp.outcome, RpcOutcome::Error(INVALID_PARAMS)));
    assert!(resp.http_status >= 200 && resp.http_status < 300);
}

#[test]
fn unknown_tool_runs_no_handler() {
    let mut h = initialized();
    match h.call_tool(&"missing".to_string(), &vec![text_arg("test_param", "x")]) {
        Err(McpError::ToolNotFound(n)) => assert_eq!(n, "missing"),
        _ => panic!("expected tool not found"),
    }
}

#[test]
fn unknown_method_is_method_not_found() {
    let resp = handle_stateless(&RpcRequest {
        id: 3,
        method: RpcMethod::Unknown("prompts/list".to_string()),
    });
    assert!(matches!(resp.outcome, RpcOutcome::Error(METHOD_NOT_FOUND)));
}

#[test]
fn missing_param_is_invalid_parameters() {
    let resp = call("get_test_message", vec![]);
    assert!(matches!(resp.outcome, RpcOutcome::Error(INVALID_PARAMS)));
    let mut h = initialized();
    match h.call_tool(&"get_test_message".to_string(), &vec![]) {
        Err(McpError::InvalidParameters(ParamError::Missing(f))) => assert_eq!(f, "test_param"),
        _ => panic!("expected a missing field"),
    }
}

#[test]
fn non_string_param_is_invalid_parameters() {
    let mut h = initialized();
    let args = vec![arg("test_param", ArgValue::Int(5))];
    match h.call_tool(&"get_test_message".to_string(), &args) {
        Err(McpError::InvalidParameters(ParamError::NotAString(f))) => assert_eq!(f, "test_param"),
        _ => panic!("expected a wrong type"),
    }
    let args = vec![arg("test_param", ArgValue::Null)];
    assert!(matches!(
        TestMessageParams::from_arguments(&args),
        Err(ParamError::NotAString(_))
    ));
    let args = vec![arg("test_param", ArgValue::Bool(true))];
    assert!(matches!(
        TestMessageParams::from_arguments(&args),
        Err(ParamError::NotAString(_))
    ));
}

#[test]
fn duplicate_param_is_invalid_parameters() {
    let args = vec![text_arg("test_param", "a"), text_arg("test_param", "b")];
    match string_field(&args, &"test_param".to_string()) {
        Err(ParamError::Duplicate(f)) => assert_eq!(f, "test_param"),
        _ => panic!("expected a duplicate"),
    }
    let resp = call("get_test_message", args);
    assert!(matches!(resp.outcome, RpcOutcome::Error(INVALID_PARAMS)));
}

#[test]
fn string_field_reads_the_value() {
    let args = vec![arg("n", ArgValue::Int(1)), text_arg("test_param", "xyz")];
    assert_eq!(string_field(&args, &"test_param".to_string()).ok(), Some("xyz".to_string()));
    assert_eq!(
        TestMessageParams::from_arguments(&args).ok().map(|p| p.test_param),
        Some("xyz".to_string())
    );
}

#[test]
fn get_test_message_formats_the_param() {
    let r = get_test_message(&TestMessageParams { test_param: "Zürich".to_string() });
    assert!(!r.is_error);
    assert_eq!(r.content.len(), 1);
    assert_eq!(r.content[0].text, "Hello World! Value of test_param is: Zürich");
}

#[test]
fn call_before_initialize_is_not_initialized() {
    let mut h = MyMCPServerHandler::new();
    let args = vec![text_arg("test_param", "abc")];
    assert!(matches!(
        h.call_tool(&"get_test_message".to_string(), &args),
        Err(McpError::NotInitialized)
    ));
    assert!(matches!(h.list_tools(), Err(McpError::NotInitialized)));
}

#[test]
fn list_tools_twice_gives_the_same_list() {
    let h = initialized();
    let a = h.list_tools().ok().unwrap();
    let b = h.list_tools().ok().unwrap();
    assert_eq!(a.len(), 1);
    assert_eq!(a.len(), b.len());
    for (x, y) in a.iter().zip(b.iter()) {
        assert_eq!(x.name, y.name);
        assert_eq!(x.description, y.description);
        assert_eq!(x.kind, y.kind);
    }
    assert_eq!(a[0].name, "get_test_message");
    assert_eq!(a[0].description, "Return a test string");
    assert_eq!(a[0].kind.schema_fields(), vec!["test_param".to_string()]);
}

#[test]
fn list_tools_over_stateless_transport() {
    let resp = handle_stateless(&RpcRequest { id: 4, method: RpcMethod::ListTools });
    match resp.outcome {
        RpcOutcome::Tools(ts) => {
            assert_eq!(ts.len(), 1);
            assert_eq!(ts[0].name, "get_test_message");
        }
        _ => panic!("expected a tool list"),
    }
}

#[test]
fn closed_session_refuses_everything() {
    let mut h = initialized();
    h.close();
    assert!(matches!(h.list_tools(), Err(McpError::NotInitialized)));
    assert!(matches!(
        h.initialize(&"2024-11-05".to_string()),
        Err(McpError::NotInitialized)
    ));
}

#[test]
fn stateless_requests_do_not_share_state() {
    let first = call("get_test_message", vec![text_arg("test_param", "one")]);
    let second = call("get_test_message", vec![text_arg("test_param", "two")]);
    let alone = call("get_test_message", vec![text_arg("test_param", "two")]);
    assert_eq!(texts(&first.outcome), vec!["Hello World! Value of test_param is: one".to_string()]);
    assert_eq!(texts(&second.outcome), texts(&alone.outcome));
    // a request that fails leaves nothing behind for the next one either
    let _ = call("get_test_message", vec![]);
    let after = call("get_test_message", vec![text_arg("test_param", "two")]);
    assert_eq!(texts(&after.outcome), texts(&alone.outcome));
}

#[test]
fn error_codes_follow_json_rpc() {
    assert_eq!(McpError::NotInitialized.code(), INVALID_REQUEST);
    assert_eq!(McpError::ToolNotFound("x".to_string()).code(), INVALID_PARAMS);
    assert_eq!(McpError::ProtocolVersionMismatch("v".to_string()).code(), INVALID_PARAMS);
    assert_eq!(
        McpError::InvalidParameters(ParamError::Missing("f".to_string())).code(),
        INVALID_PARAMS
    );
    assert_eq!(McpError::ToolExecutionError("boom".to_string()).code(), INTERNAL_ERROR);
    assert_eq!(INVALID_PARAMS, -32602);
    assert_eq!(METHOD_NOT_FOUND, -32601);
    assert_eq!(INVALID_REQUEST, -32600);
    assert_eq!(INTERNAL_ERROR, -32603);
}

#[test]
fn registry_refuses_duplicate_names_and_keeps_order() {
    let mut r = ToolRegistry::new();
    assert_eq!(r.register("a".to_string(), "first".to_string(), ToolKind::TestMessage), Ok(()));
    assert_eq!(r.register("b".to_string(), "second".to_string(), ToolKind::TestMessage), Ok(()));
    assert_eq!(
        r.register("a".to_string(), "again".to_string(), ToolKind::TestMessage),
        Err(RegistryError::DuplicateName)
    );
    let names: Vec<String> = r.list().iter().map(|t| t.name.clone()).collect();
    assert_eq!(names, vec!["a".to_string(), "b".to_string()]);
    assert_eq!(r.list()[0].description, "first");
    assert_eq!(r.lookup(&"b".to_string()), Some(1));
    assert_eq!(r.lookup(&"c".to_string()), None);
    assert_eq!(r.get(0).name, "a");
}

#[test]
fn serverless_config_disables_keep_alive_and_sessions() {
    let c = serverless_config();
    assert_eq!(c.sse_keep_alive, None);
    assert!(!c.stateful_mode);
}
