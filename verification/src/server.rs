//! The session state machine.
//!
//! A session moves once from uninitialized to initialized and never back.
//! Each inbound message yields at most one decision: a response to write, a
//! tool call for the driving loop to execute, or silence (notifications and
//! stray responses are never answered).  The registry never changes during a
//! session, so the announced tool set is the same on every `tools/list`,
//! whatever calls happen in between.

use vstd::prelude::*;
use crate::json::JsonValue;
use crate::error::{JsonRpcError, McpError};
use crate::protocol::{
    McpMessage, JsonRpcRequest, JsonRpcResponse, decode_initialize_params, decode_call_params,
    initialize_result_json, initialize_result_fields, tools_list_json, tools_list_fields,
    CallToolResult, call_result_to_json, call_result_fields, ToolResult,
};
use crate::registry::ToolRegistry;

verus! {

broadcast use vstd::std_specs::vec::group_vec_axioms, vstd::seq::group_seq_axioms;

/// What the session decided for one inbound message.
pub enum SessionStep {
    /// Write this response.
    Reply(JsonRpcResponse),
    /// Execute this tool, then hand the outcome to `tool_outcome`.
    CallTool { id: Option<JsonValue>, name: String, arguments: Option<JsonValue> },
    /// Say nothing (notifications and stray responses).
    Quiet,
}

/// What an optional params member decodes to as initialize parameters:
/// protocol version, client name, client version.
pub open spec fn opt_init_params(params: Option<JsonValue>) -> Option<
    (Seq<char>, Seq<char>, Seq<char>),
> {
    match params {
        Some(p) => crate::protocol::spec_initialize_params(p.jm()),
        None => None,
    }
}

/// What an optional params member decodes to as tool call parameters: the
/// tool name and the opaque arguments.
pub open spec fn opt_call_params(params: Option<JsonValue>) -> Option<
    (Seq<char>, Option<crate::json::JsonModel>),
> {
    match params {
        Some(p) => crate::protocol::spec_call_params(p.jm()),
        None => None,
    }
}

/// The model of an optional argument value.
pub open spec fn opt_args_model(arguments: Option<JsonValue>) -> Option<crate::json::JsonModel> {
    match arguments {
        Some(a) => Some(a.jm()),
        None => None,
    }
}

/// One protocol session.
pub struct McpServer {
    pub initialized: bool,
    pub client_name: Option<String>,
    pub client_version: Option<String>,
    pub registry: ToolRegistry,
    pub server_name: String,
    pub server_version: String,
    pub instructions: String,
}

impl McpServer {
    /// A fresh, uninitialized session over the given registry.
    pub fn new(
        registry: ToolRegistry,
        server_name: String,
        server_version: String,
        instructions: String,
    ) -> (r: McpServer)
        ensures
            !r.initialized,
            r.client_name is None,
            r.registry == registry,
            r.server_name == server_name,
            r.server_version == server_version,
            r.instructions == instructions,
    {
        McpServer {
            initialized: false,
            client_name: None,
            client_version: None,
            registry,
            server_name,
            server_version,
            instructions,
        }
    }

    /// Handles one inbound message.
    ///
    /// The registry and the server identity never change, so two
    /// `tools/list` requests are answered with the same tool set whatever
    /// happens in between.  A `tools/list` or `tools/call` before
    /// `initialize` is rejected with a protocol error and the session state
    /// is left exactly as it was, so a later `initialize` still succeeds.
    /// A `tools/call` naming an unregistered tool is answered with the
    /// tool-not-found error, never executed.  Notifications are never
    /// answered.
    pub fn handle_message(&mut self, msg: McpMessage) -> (r: SessionStep)
        ensures
            final(self).registry == old(self).registry,
            final(self).server_name == old(self).server_name,
            final(self).server_version == old(self).server_version,
            final(self).instructions == old(self).instructions,
            old(self).initialized ==> final(self).initialized,
            msg matches McpMessage::Notification(_) ==> r is Quiet && *final(self) == *old(self),
            msg matches McpMessage::Response(_) ==> r is Quiet && *final(self) == *old(self),
            msg matches McpMessage::Request(req) ==> ({
                &&& (req.method@ == "initialize"@ ==> (match r {
                    SessionStep::Reply(resp) => {
                        &&& resp.id == req.id
                        &&& (match opt_init_params(req.params) {
                            Some((pv, cname, cver)) => {
                                &&& resp.error is None
                                &&& final(self).initialized
                                &&& (match resp.result {
                                    Some(v) => v.jm() == crate::json::JsonModel::Obj(
                                        initialize_result_fields(
                                            old(self).server_name@,
                                            old(self).server_version@,
                                            old(self).instructions@,
                                        ),
                                    ),
                                    None => false,
                                })
                            },
                            None => (match resp.error {
                                Some(e) => e.code == -32602,
                                None => false,
                            }) && *final(self) == *old(self),
                        })
                    },
                    _ => false,
                }))
                &&& (req.method@ == "tools/list"@ && !old(self).initialized ==> (match r {
                    SessionStep::Reply(resp) => resp.id == req.id && (match resp.error {
                        Some(e) => e.code == -32600,
                        None => false,
                    }) && *final(self) == *old(self),
                    _ => false,
                }))
                &&& (req.method@ == "tools/list"@ && old(self).initialized ==> (match r {
                    SessionStep::Reply(resp) => {
                        &&& resp.id == req.id
                        &&& resp.error is None
                        &&& (match resp.result {
                            Some(v) => v.jm() == crate::json::JsonModel::Obj(
                                tools_list_fields(old(self).registry.tools@),
                            ),
                            None => false,
                        })
                        &&& *final(self) == *old(self)
                    },
                    _ => false,
                }))
                &&& (req.method@ == "tools/call"@ && !old(self).initialized ==> (match r {
                    SessionStep::Reply(resp) => resp.id == req.id && (match resp.error {
                        Some(e) => e.code == -32600,
                        None => false,
                    }) && *final(self) == *old(self),
                    _ => false,
                }))
                &&& (req.method@ == "tools/call"@ && old(self).initialized ==> *final(self)
                    == *old(self) && (match opt_call_params(req.params) {
                    Some((nm, args)) => {
                        if old(self).registry.spec_has(nm) {
                            match r {
                                SessionStep::CallTool { id, name, arguments } => id == req.id
                                    && name@ == nm && opt_args_model(arguments) == args,
                                _ => false,
                            }
                        } else {
                            match r {
                                SessionStep::Reply(resp) => resp.id == req.id && (match resp.error {
                                    Some(e) => e.code == -32001,
                                    None => false,
                                }),
                                _ => false,
                            }
                        }
                    },
                    None => match r {
                        SessionStep::Reply(resp) => resp.id == req.id && (match resp.error {
                            Some(e) => e.code == -32602,
                            None => false,
                        }),
                        _ => false,
                    },
                }))
                &&& (req.method@ != "initialize"@ && req.method@ != "tools/list"@ && req.method@
                    != "tools/call"@ ==> (match r {
                    SessionStep::Reply(resp) => resp.id == req.id && (match resp.error {
                        Some(e) => e.code == -32601,
                        None => false,
                    }) && *final(self) == *old(self),
                    _ => false,
                }))
            }),
    {
        proof {
            assert("initialize"@ != "tools/list"@ && "initialize"@ != "tools/call"@
                && "tools/list"@ != "tools/call"@) by {
                reveal_strlit("initialize");
                reveal_strlit("tools/list");
                reveal_strlit("tools/call");
                assert("initialize"@[0] == 'i' && "tools/list"@[0] == 't' && "tools/call"@[6]
                    == 'c' && "tools/list"@[6] == 'l');
            }
        }
        match msg {
            McpMessage::Notification(_n) => SessionStep::Quiet,
            McpMessage::Response(_resp) => SessionStep::Quiet,
            McpMessage::Request(req) => {
                let JsonRpcRequest { jsonrpc: _, method, params, id } = req;
                if method.eq(&"initialize".to_owned()) {
                    self.handle_initialize(params, id)
                } else if method.eq(&"tools/list".to_owned()) {
                    if !self.initialized {
                        SessionStep::Reply(
                            JsonRpcResponse::error(id, JsonRpcError::invalid_request()),
                        )
                    } else {
                        let result = tools_list_json(self.registry.list_tools());
                        SessionStep::Reply(JsonRpcResponse::success(id, result))
                    }
                } else if method.eq(&"tools/call".to_owned()) {
                    if !self.initialized {
                        SessionStep::Reply(
                            JsonRpcResponse::error(id, JsonRpcError::invalid_request()),
                        )
                    } else {
                        self.handle_tools_call(params, id)
                    }
                } else {
                    SessionStep::Reply(
                        JsonRpcResponse::error(id, JsonRpcError::method_not_found(method.as_str())),
                    )
                }
            },
        }
    }

    fn handle_initialize(&mut self, params: Option<JsonValue>, id: Option<JsonValue>) -> (r:
        SessionStep)
        ensures
            final(self).registry == old(self).registry,
            final(self).server_name == old(self).server_name,
            final(self).server_version == old(self).server_version,
            final(self).instructions == old(self).instructions,
            old(self).initialized ==> final(self).initialized,
            match r {
                SessionStep::Reply(resp) => {
                    &&& resp.id == id
                    &&& (match opt_init_params(params) {
                        Some((pv, cname, cver)) => {
                            &&& resp.error is None
                            &&& final(self).initialized
                            &&& (match resp.result {
                                Some(v) => v.jm() == crate::json::JsonModel::Obj(
                                    initialize_result_fields(
                                        old(self).server_name@,
                                        old(self).server_version@,
                                        old(self).instructions@,
                                    ),
                                ),
                                None => false,
                            })
                            &&& (match final(self).client_name {
                                Some(n) => n@ == cname,
                                None => false,
                            })
                            &&& (match final(self).client_version {
                                Some(n) => n@ == cver,
                                None => false,
                            })
                        },
                        None => (match resp.error {
                            Some(e) => e.code == -32602,
                            None => false,
                        }) && *final(self) == *old(self),
                    })
                },
                _ => false,
            },
    {
        let p = match params {
            Some(p) => p,
            None => {
                return SessionStep::Reply(
                    JsonRpcResponse::error(
                        id,
                        JsonRpcError::invalid_params("Chybí parametry pro initialize"),
                    ),
                );
            },
        };
        let decoded = match decode_initialize_params(&p) {
            Some(d) => d,
            None => {
                return SessionStep::Reply(
                    JsonRpcResponse::error(
                        id,
                        JsonRpcError::invalid_params("Neplatné parametry initialize"),
                    ),
                );
            },
        };
        // A protocol version mismatch is tolerated, not fatal: the driving
        // loop may log it, the handshake still succeeds.
        self.client_name = Some(decoded.client_name);
        self.client_version = Some(decoded.client_version);
        self.initialized = true;
        let result = initialize_result_json(
            &self.server_name,
            &self.server_version,
            &self.instructions,
        );
        SessionStep::Reply(JsonRpcResponse::success(id, result))
    }

    fn handle_tools_call(&mut self, params: Option<JsonValue>, id: Option<JsonValue>) -> (r:
        SessionStep)
        requires
            old(self).initialized,
        ensures
            *final(self) == *old(self),
            match opt_call_params(params) {
                Some((nm, args)) => {
                    if old(self).registry.spec_has(nm) {
                        match r {
                            SessionStep::CallTool { id: cid, name, arguments } => cid == id
                                && name@ == nm && opt_args_model(arguments) == args,
                            _ => false,
                        }
                    } else {
                        match r {
                            SessionStep::Reply(resp) => resp.id == id && (match resp.error {
                                Some(e) => e.code == -32001 && (match e.data {
                                    Some(d) => d.jm() == crate::json::JsonModel::Obj(
                                        crate::error::detail_fields("tool"@, nm),
                                    ),
                                    None => false,
                                }),
                                None => false,
                            }),
                            _ => false,
                        }
                    }
                },
                None => match r {
                    SessionStep::Reply(resp) => resp.id == id && (match resp.error {
                        Some(e) => e.code == -32602,
                        None => false,
                    }),
                    _ => false,
                },
            },
    {
        let p = match params {
            Some(p) => p,
            None => {
                return SessionStep::Reply(
                    JsonRpcResponse::error(
                        id,
                        JsonRpcError::invalid_params("Chybí parametry pro tools/call"),
                    ),
                );
            },
        };
        let decoded = match decode_call_params(&p) {
            Some(d) => d,
            None => {
                return SessionStep::Reply(
                    JsonRpcResponse::error(
                        id,
                        JsonRpcError::invalid_params("Neplatné parametry pro tools/call"),
                    ),
                );
            },
        };
        if !self.registry.has_tool(decoded.name.as_str()) {
            return SessionStep::Reply(
                JsonRpcResponse::error(id, JsonRpcError::tool_not_found(decoded.name.as_str())),
            );
        }
        SessionStep::CallTool { id, name: decoded.name, arguments: decoded.arguments }
    }

    /// Wraps a finished tool call's outcome as the correlated response.  A
    /// tool failure travels in band, as a successful response whose payload
    /// says `isError`: the caller needs failures as readable text.
    pub fn tool_outcome(&self, id: Option<JsonValue>, outcome: &CallToolResult) -> (r:
        JsonRpcResponse)
        ensures
            r.id == id,
            r.error is None,
            match r.result {
                Some(v) => v.jm() == crate::json::JsonModel::Obj(call_result_fields(*outcome)),
                None => false,
            },
    {
        JsonRpcResponse::success(id, call_result_to_json(outcome))
    }

    /// The in-band failure payload for a tool that could not run.
    pub fn tool_failure(message: String) -> (r: CallToolResult)
        ensures
            r.is_error == Some(true),
            r.content@.len() == 1,
    {
        let mut content: Vec<ToolResult> = Vec::new();
        content.push(ToolResult::Text { text: message });
        CallToolResult::error(content)
    }
}

} // verus!
