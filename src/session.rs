//! The session handler: the protocol state machine (initialize, list tools,
//! call tool) over the tool registry and the server's capability descriptor.
use vstd::prelude::*;
use crate::registry::{has_name, ToolDescriptor, ToolKind, ToolRegistry};
use crate::tool::{
    field_str, get_test_message, test_message_text, test_param_field, Argument, CallToolResult,
    ParamError, TestMessageParams,
};

verus! {

/// JSON-RPC error code for a malformed or out-of-order request.
pub const INVALID_REQUEST: i64 = -32600;

/// JSON-RPC error code for an unknown method.
pub const METHOD_NOT_FOUND: i64 = -32601;

/// JSON-RPC error code for bad parameters, an unknown tool among them.
pub const INVALID_PARAMS: i64 = -32602;

/// JSON-RPC error code for a failure inside the server.
pub const INTERNAL_ERROR: i64 = -32603;

/// The one protocol version this server speaks.
pub open spec fn supported_version() -> Seq<char> {
    "2024-11-05"@
}

/// Name reported as the server's identity.
pub open spec fn server_name() -> Seq<char> {
    "rmcp"@
}

/// Version reported as the server's identity.
pub open spec fn server_version() -> Seq<char> {
    "0.2.1"@
}

/// Usage instructions sent on initialization.
pub open spec fn instructions_text() -> Seq<char> {
    "This is a test MCP server. Use the `get_test_message` tool to return a test message."@
}

pub open spec fn test_tool_name() -> Seq<char> {
    "get_test_message"@
}

pub open spec fn test_tool_description() -> Seq<char> {
    "Return a test string"@
}

/// The tools every session starts with, in registration order.
pub open spec fn default_tools() -> Seq<(Seq<char>, Seq<char>, ToolKind)> {
    seq![(test_tool_name(), test_tool_description(), ToolKind::TestMessage)]
}

/// Feature categories a server declares.
#[derive(PartialEq, Eq, Structural, Debug, Clone, Copy)]
pub struct ServerCapabilities {
    pub tools: bool,
    pub prompts: bool,
    pub resources: bool,
}

/// Server identity.
pub struct Implementation {
    pub name: String,
    pub version: String,
}

/// The capability descriptor returned on initialization.
pub struct ServerInfo {
    pub protocol_version: String,
    pub capabilities: ServerCapabilities,
    pub server_info: Implementation,
    pub instructions: Option<String>,
}

pub struct ServerInfoView {
    pub protocol_version: Seq<char>,
    pub capabilities: ServerCapabilities,
    pub name: Seq<char>,
    pub version: Seq<char>,
    pub instructions: Option<Seq<char>>,
}

impl View for ServerInfo {
    type V = ServerInfoView;

    open spec fn view(&self) -> ServerInfoView {
        ServerInfoView {
            protocol_version: self.protocol_version@,
            capabilities: self.capabilities,
            name: self.server_info.name@,
            version: self.server_info.version@,
            instructions: match self.instructions {
                Some(s) => Some(s@),
                None => None,
            },
        }
    }
}

/// Relies on rmcp's `Implementation::from_build_env`: the crate name and the
/// package version that rmcp was built with, `rmcp` and `0.2.1` in the
/// version of rmcp this crate pins.
#[verifier::external_body]
fn engine_identity() -> (r: Implementation)
    ensures
        r.name@ == server_name(),
        r.version@ == server_version(),
{
    let id = rmcp::model::Implementation::from_build_env();
    Implementation { name: id.name, version: id.version }
}

/// The descriptor this server declares: tools only, with its instructions.
pub open spec fn declared_info() -> ServerInfoView {
    ServerInfoView {
        protocol_version: supported_version(),
        capabilities: ServerCapabilities { tools: true, prompts: false, resources: false },
        name: server_name(),
        version: server_version(),
        instructions: Some(instructions_text()),
    }
}

/// Where a session stands in the protocol.
#[derive(PartialEq, Eq, Structural, Debug, Clone, Copy)]
pub enum SessionPhase {
    Uninitialized,
    Initialized,
    Terminated,
}

/// Protocol-level failures, each answered in-band with a JSON-RPC error.
pub enum McpError {
    /// The client asked for a protocol version other than the supported one,
    /// which the error carries.
    ProtocolVersionMismatch(String),
    /// The session is not in the initialized phase.
    NotInitialized,
    /// The arguments do not conform to the tool's schema.
    InvalidParameters(ParamError),
    /// No tool has the requested name, which the error carries.
    ToolNotFound(String),
    /// A tool handler reported a failure with this message.
    ToolExecutionError(String),
}

/// The JSON-RPC code of each protocol error.
pub open spec fn error_code(e: McpError) -> i64 {
    match e {
        McpError::ProtocolVersionMismatch(_) => INVALID_PARAMS,
        McpError::NotInitialized => INVALID_REQUEST,
        McpError::InvalidParameters(_) => INVALID_PARAMS,
        McpError::ToolNotFound(_) => INVALID_PARAMS,
        McpError::ToolExecutionError(_) => INTERNAL_ERROR,
    }
}

impl McpError {
    pub fn code(&self) -> (r: i64)
        ensures
            r == error_code(*self),
    {
        match self {
            McpError::ProtocolVersionMismatch(_) => INVALID_PARAMS,
            McpError::NotInitialized => INVALID_REQUEST,
            McpError::InvalidParameters(_) => INVALID_PARAMS,
            McpError::ToolNotFound(_) => INVALID_PARAMS,
            McpError::ToolExecutionError(_) => INTERNAL_ERROR,
        }
    }
}

/// Texts of a tool result's content items, in order.
pub open spec fn result_texts(r: CallToolResult) -> Seq<Seq<char>> {
    r.content@.map_values(|c: crate::tool::Content| c.text@)
}

/// What the handler of `kind` returns for conforming arguments `args`.
pub open spec fn tool_output(kind: ToolKind, args: Seq<Argument>) -> Seq<Seq<char>> {
    match kind {
        ToolKind::TestMessage => seq![
            test_message_text(field_str(args, test_param_field())->Some_0),
        ],
    }
}

/// One protocol session over the registered tools.
pub struct MyMCPServerHandler {
    tool_router: ToolRegistry,
    phase: SessionPhase,
    invoked: Ghost<Seq<ToolKind>>,
}

impl MyMCPServerHandler {
    pub closed spec fn tools(&self) -> Seq<(Seq<char>, Seq<char>, ToolKind)> {
        self.tool_router@
    }

    pub closed spec fn phase(&self) -> SessionPhase {
        self.phase
    }

    /// The handlers this session has run, in order.
    pub closed spec fn invocations(&self) -> Seq<ToolKind> {
        self.invoked@
    }

    pub closed spec fn wf(&self) -> bool {
        self.tool_router.wf()
    }

    /// A fresh, uninitialized session with the example tool registered.
    pub fn new() -> (r: MyMCPServerHandler)
        ensures
            r.wf(),
            r.phase() == SessionPhase::Uninitialized,
            r.tools() == default_tools(),
            r.invocations().len() == 0,
    {
        let mut tool_router = ToolRegistry::new();
        let _registered = tool_router.register(
            String::from_str("get_test_message"),
            String::from_str("Return a test string"),
            ToolKind::TestMessage,
        );
        proof {
            assert(tool_router@ =~= default_tools());
        }
        MyMCPServerHandler { tool_router, phase: SessionPhase::Uninitialized, invoked: Ghost(Seq::empty()) }
    }

    /// The server's capability descriptor.
    pub fn get_info(&self) -> (r: ServerInfo)
        ensures
            r@ == declared_info(),
    {
        ServerInfo {
            protocol_version: String::from_str("2024-11-05"),
            capabilities: ServerCapabilities { tools: true, prompts: false, resources: false },
            server_info: engine_identity(),
            instructions: Some(
                String::from_str(
                    "This is a test MCP server. Use the `get_test_message` tool to return a test message.",
                ),
            ),
        }
    }

    /// Starts the session. A supported version moves it to `Initialized` and
    /// returns the descriptor; another version is refused with the supported
    /// one and changes nothing; a closed session stays closed.
    pub fn initialize(&mut self, protocol_version: &String) -> (r: Result<ServerInfo, McpError>)
        requires
            old(self).wf(),
        ensures
            final(self).wf(),
            final(self).tools() == old(self).tools(),
            final(self).invocations() == old(self).invocations(),
            old(self).phase() == SessionPhase::Terminated ==> (r matches Err(
                McpError::NotInitialized,
            ) && final(self).phase() == SessionPhase::Terminated),
            old(self).phase() != SessionPhase::Terminated ==> {
                &&& protocol_version@ == supported_version() ==> (r matches Ok(info)
                    && info@ == declared_info() && final(self).phase()
                    == SessionPhase::Initialized)
                &&& protocol_version@ != supported_version() ==> (r matches Err(
                    McpError::ProtocolVersionMismatch(v),
                ) && v@ == supported_version() && final(self).phase() == old(self).phase())
            },
    {
        if self.phase == SessionPhase::Terminated {
            return Err(McpError::NotInitialized);
        }
        let supported = String::from_str("2024-11-05");
        if *protocol_version == supported {
            self.phase = SessionPhase::Initialized;
            Ok(self.get_info())
        } else {
            Err(McpError::ProtocolVersionMismatch(supported))
        }
    }

    /// The registered tools in registration order; only in an initialized
    /// session.
    pub fn list_tools(&self) -> (r: Result<Vec<ToolDescriptor>, McpError>)
        requires
            self.wf(),
        ensures
            self.phase() == SessionPhase::Initialized <==> r is Ok,
            r matches Ok(ts) ==> ts@.map_values(|t: ToolDescriptor| t@) == self.tools(),
            r matches Err(e) ==> e is NotInitialized,
    {
        if self.phase != SessionPhase::Initialized {
            return Err(McpError::NotInitialized);
        }
        Ok(self.tool_router.list())
    }

    /// Listing the tools twice on one session, with nothing registered in
    /// between, gives the same descriptors in the same order.
    pub proof fn lemma_list_tools_idempotent(
        &self,
        first: Result<Vec<ToolDescriptor>, McpError>,
        second: Result<Vec<ToolDescriptor>, McpError>,
    )
        requires
            self.wf(),
            self.phase() == SessionPhase::Initialized <==> first is Ok,
            first matches Ok(ts) ==> ts@.map_values(|t: ToolDescriptor| t@) == self.tools(),
            self.phase() == SessionPhase::Initialized <==> second is Ok,
            second matches Ok(ts) ==> ts@.map_values(|t: ToolDescriptor| t@) == self.tools(),
        ensures
            first is Ok <==> second is Ok,
            first matches Ok(a) ==> second matches Ok(b) && a@.map_values(
                |t: ToolDescriptor| t@,
            ) == b@.map_values(|t: ToolDescriptor| t@),
    {
    }

    /// Calls the tool `name` with `args`. Its handler runs exactly once, and
    /// only in an initialized session, for a registered name and conforming
    /// arguments; its result is returned as it is.
    pub fn call_tool(&mut self, name: &String, args: &Vec<Argument>) -> (r: Result<CallToolResult, McpError>)
        requires
            old(self).wf(),
        ensures
            final(self).wf(),
            final(self).tools() == old(self).tools(),
            final(self).phase() == old(self).phase(),
            old(self).phase() != SessionPhase::Initialized ==> r matches Err(
                McpError::NotInitialized,
            ),
            old(self).phase() == SessionPhase::Initialized && !has_name(old(self).tools(), name@)
                ==> (r matches Err(McpError::ToolNotFound(n)) && n@ == name@),
            forall|i: int|
                #![trigger old(self).tools()[i]]
                0 <= i < old(self).tools().len() && old(self).tools()[i].0 == name@
                    && old(self).phase() == SessionPhase::Initialized ==> {
                    let kind = old(self).tools()[i].2;
                    &&& kind.conforms(args@) ==> (r matches Ok(res) && !res.is_error
                        && result_texts(res) == tool_output(kind, args@)
                        && final(self).invocations() == old(self).invocations().push(kind))
                    &&& !kind.conforms(args@) ==> r matches Err(McpError::InvalidParameters(_))
                },
            r is Err ==> final(self).invocations() == old(self).invocations(),
    {
        if self.phase != SessionPhase::Initialized {
            return Err(McpError::NotInitialized);
        }
        let idx = match self.tool_router.lookup(name) {
            Some(i) => i,
            None => {
                return Err(McpError::ToolNotFound(name.clone()));
            },
        };
        proof {
            assert forall|i: int|
                0 <= i < self.tools().len() && self.tools()[i].0 == name@ implies i == idx by {
                if i != idx {
                    assert(self.tool_router.wf());
                    if i < idx {
                        assert(self.tool_router@[i].0 != self.tool_router@[idx as int].0);
                    } else {
                        assert(self.tool_router@[idx as int].0 != self.tool_router@[i].0);
                    }
                }
            }
        }
        let kind = self.tool_router.get(idx).kind;
        match kind {
            ToolKind::TestMessage => {
                match TestMessageParams::from_arguments(args) {
                    Ok(params) => {
                        let res = get_test_message(&params);
                        self.invoked = Ghost(self.invoked@.push(kind));
                        proof {
                            assert(result_texts(res) =~= tool_output(kind, args@));
                        }
                        Ok(res)
                    },
                    Err(e) => Err(McpError::InvalidParameters(e)),
                }
            },
        }
    }

    /// Ends the session.
    pub fn close(&mut self)
        requires
            old(self).wf(),
        ensures
            final(self).wf(),
            final(self).tools() == old(self).tools(),
            final(self).invocations() == old(self).invocations(),
            final(self).phase() == SessionPhase::Terminated,
    {
        self.phase = SessionPhase::Terminated;
    }
}

} // verus!
