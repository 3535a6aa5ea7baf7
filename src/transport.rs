//! The streamable transport step in stateless mode: every request gets a
//! fresh session that runs exactly the one operation the request names and
//! is then closed.
use vstd::prelude::*;
use crate::registry::{ToolDescriptor, ToolKind};
use crate::session::{
    declared_info, default_tools, error_code, result_texts, tool_output, McpError,
    MyMCPServerHandler, ServerInfo, ServerInfoView, test_tool_name, supported_version,
    METHOD_NOT_FOUND, INVALID_PARAMS,
};
use crate::tool::{Argument, CallToolResult};

verus! {

/// HTTP status of every protocol answer, errors included: those travel
/// in-band as JSON-RPC error objects.
pub const PROTOCOL_STATUS: u16 = 200;

/// Transport settings that the deployment supplies.
pub struct StreamableHttpServerConfig {
    /// Interval of event-stream keep-alive messages, in seconds; `None` turns
    /// them off.
    pub sse_keep_alive: Option<u64>,
    pub stateful_mode: bool,
}

/// The settings of a serverless deployment: no keep-alive, no sessions kept.
pub fn serverless_config() -> (r: StreamableHttpServerConfig)
    ensures
        r.sse_keep_alive is None,
        !r.stateful_mode,
{
    StreamableHttpServerConfig { sse_keep_alive: None, stateful_mode: false }
}

/// The operation a JSON-RPC request names.
pub enum RpcMethod {
    Initialize(String),
    ListTools,
    CallTool(String, Vec<Argument>),
    Unknown(String),
}

pub struct RpcRequest {
    pub id: i64,
    pub method: RpcMethod,
}

pub enum RpcOutcome {
    Initialized(ServerInfo),
    Tools(Vec<ToolDescriptor>),
    ToolCalled(CallToolResult),
    Error(i64),
}

pub struct RpcResponse {
    pub id: i64,
    pub http_status: u16,
    pub outcome: RpcOutcome,
}

pub enum MethodView {
    Initialize(Seq<char>),
    ListTools,
    CallTool(Seq<char>, Seq<Argument>),
    Unknown(Seq<char>),
}

pub struct RequestView {
    pub id: i64,
    pub method: MethodView,
}

pub enum OutcomeView {
    Initialized(ServerInfoView),
    Tools(Seq<(Seq<char>, Seq<char>, ToolKind)>),
    ToolCalled(Seq<Seq<char>>, bool),
    Error(i64),
}

pub struct ResponseView {
    pub id: i64,
    pub http_status: u16,
    pub outcome: OutcomeView,
}

impl View for RpcRequest {
    type V = RequestView;

    open spec fn view(&self) -> RequestView {
        RequestView {
            id: self.id,
            method: match self.method {
                RpcMethod::Initialize(v) => MethodView::Initialize(v@),
                RpcMethod::ListTools => MethodView::ListTools,
                RpcMethod::CallTool(n, a) => MethodView::CallTool(n@, a@),
                RpcMethod::Unknown(m) => MethodView::Unknown(m@),
            },
        }
    }
}

impl View for RpcResponse {
    type V = ResponseView;

    open spec fn view(&self) -> ResponseView {
        ResponseView {
            id: self.id,
            http_status: self.http_status,
            outcome: match self.outcome {
                RpcOutcome::Initialized(info) => OutcomeView::Initialized(info@),
                RpcOutcome::Tools(ts) => OutcomeView::Tools(
                    ts@.map_values(|t: ToolDescriptor| t@),
                ),
                RpcOutcome::ToolCalled(res) => OutcomeView::ToolCalled(
                    result_texts(res),
                    res.is_error,
                ),
                RpcOutcome::Error(code) => OutcomeView::Error(code),
            },
        }
    }
}

/// The outcome of one operation on a fresh session.
pub open spec fn stateless_outcome(m: MethodView) -> OutcomeView {
    match m {
        MethodView::Initialize(v) => if v == supported_version() {
            OutcomeView::Initialized(declared_info())
        } else {
            OutcomeView::Error(INVALID_PARAMS)
        },
        MethodView::ListTools => OutcomeView::Tools(default_tools()),
        MethodView::CallTool(name, args) => if name != test_tool_name() {
            OutcomeView::Error(INVALID_PARAMS)
        } else if ToolKind::TestMessage.conforms(args) {
            OutcomeView::ToolCalled(tool_output(ToolKind::TestMessage, args), false)
        } else {
            OutcomeView::Error(INVALID_PARAMS)
        },
        MethodView::Unknown(_) => OutcomeView::Error(METHOD_NOT_FOUND),
    }
}

/// The answer to a request in stateless mode: a function of the request alone.
pub open spec fn stateless_reply(req: RequestView) -> ResponseView {
    ResponseView { id: req.id, http_status: PROTOCOL_STATUS, outcome: stateless_outcome(req.method) }
}

/// Answers to a sequence of requests, each served on its own session.
pub open spec fn serve_sequence(reqs: Seq<RequestView>) -> Seq<ResponseView> {
    reqs.map_values(|q: RequestView| stateless_reply(q))
}

/// Two requests served one after the other never observe each other: the
/// answer to the second is the one it gets when served alone.
pub proof fn lemma_stateless_isolation(first: RequestView, second: RequestView)
    ensures
        serve_sequence(seq![first, second])[1] == serve_sequence(seq![second])[0],
        serve_sequence(seq![first, second])[0] == serve_sequence(seq![first])[0],
{
}

fn error_outcome(e: &McpError) -> (r: RpcOutcome)
    ensures
        r == RpcOutcome::Error(error_code(*e)),
{
    RpcOutcome::Error(e.code())
}

/// Serves one request: a fresh session runs its one operation (after an
/// implicit initialization for anything but `initialize`) and is closed.
pub fn handle_stateless(req: &RpcRequest) -> (r: RpcResponse)
    ensures
        r@ == stateless_reply(req@),
{
    let mut session = MyMCPServerHandler::new();
    let outcome = match &req.method {
        RpcMethod::Initialize(v) => {
            match session.initialize(v) {
                Ok(info) => RpcOutcome::Initialized(info),
                Err(e) => error_outcome(&e),
            }
        },
        RpcMethod::ListTools => {
            let supported = String::from_str("2024-11-05");
            let _ = session.initialize(&supported);
            match session.list_tools() {
                Ok(ts) => RpcOutcome::Tools(ts),
                Err(e) => error_outcome(&e),
            }
        },
        RpcMethod::CallTool(name, args) => {
            let supported = String::from_str("2024-11-05");
            let _ = session.initialize(&supported);
            proof {
                let tools = session.tools();
                if crate::registry::has_name(tools, name@) {
                    let i = choose|i: int| 0 <= i < tools.len() && (#[trigger] tools[i]).0 == name@;
                    assert(i == 0);
                }
                if name@ == test_tool_name() {
                    assert(tools[0].0 == name@);
                }
            }
            match session.call_tool(name, args) {
                Ok(res) => RpcOutcome::ToolCalled(res),
                Err(e) => error_outcome(&e),
            }
        },
        RpcMethod::Unknown(_) => RpcOutcome::Error(METHOD_NOT_FOUND),
    };
    session.close();
    RpcResponse { id: req.id, http_status: PROTOCOL_STATUS, outcome }
}

} // verus!
