//! Error taxonomy: upstream API errors, protocol errors, transport errors,
//! and the JSON-RPC error objects sent on the wire.

use vstd::prelude::*;
use crate::json::{JsonValue, JsonModel};

verus! {

/// An error from the request pipeline.
#[derive(Debug)]
pub enum ApiError {
    /// The HTTP transport failed (connection, timeout); the message is the
    /// transport's own text.
    Http(String),
    /// The upstream answered with a non-success status, or a body that could
    /// not be decoded.
    Api { status: u16, message: String },
    /// The credential is missing or unusable.
    Authentication(String),
    /// Admission was denied for too long.
    RateLimit,
    /// The requested entity does not exist.
    NotFound(String),
    /// The caller's parameters are invalid.
    InvalidParams(String),
    /// A cached value no longer decodes to the expected shape.
    Cache(String),
    /// The configuration is unusable.
    Config(String),
}

impl ApiError {
    /// The rendered message of this error, exactly.
    pub open spec fn spec_message(self) -> Seq<char> {
        match self {
            ApiError::Http(m) => "HTTP request error: "@ + m@,
            ApiError::Api { status, message } => "API error: "@ + crate::text::dec_digits(
                status as nat,
            ) + " - "@ + message@,
            ApiError::Authentication(m) => "Authentication error: "@ + m@,
            ApiError::RateLimit => "Rate limit exceeded"@,
            ApiError::NotFound(m) => "Resource not found: "@ + m@,
            ApiError::InvalidParams(m) => "Invalid parameters: "@ + m@,
            ApiError::Cache(m) => "Cache error: "@ + m@,
            ApiError::Config(m) => "Configuration error: "@ + m@,
        }
    }

    /// A human-readable message: the error's kind, then the carried detail.
    pub fn message(&self) -> (r: String)
        ensures
            r@ == self.spec_message(),
    {
        match self {
            ApiError::Http(m) => {
                let mut out = "HTTP request error: ".to_owned();
                out.append(m.as_str());
                out
            },
            ApiError::Api { status, message } => {
                let mut out = "API error: ".to_owned();
                crate::text::append_u64(&mut out, *status as u64);
                out.append(" - ");
                out.append(message.as_str());
                proof {
                    assert(out@ =~= self.spec_message());
                }
                out
            },
            ApiError::Authentication(m) => {
                let mut out = "Authentication error: ".to_owned();
                out.append(m.as_str());
                out
            },
            ApiError::RateLimit => "Rate limit exceeded".to_owned(),
            ApiError::NotFound(m) => {
                let mut out = "Resource not found: ".to_owned();
                out.append(m.as_str());
                out
            },
            ApiError::InvalidParams(m) => {
                let mut out = "Invalid parameters: ".to_owned();
                out.append(m.as_str());
                out
            },
            ApiError::Cache(m) => {
                let mut out = "Cache error: ".to_owned();
                out.append(m.as_str());
                out
            },
            ApiError::Config(m) => {
                let mut out = "Configuration error: ".to_owned();
                out.append(m.as_str());
                out
            },
        }
    }
}

/// The structured error body some upstream responses carry.
pub struct ApiErrorResponse {
    pub errors: Option<Vec<String>>,
    pub message: Option<String>,
    pub error: Option<String>,
}

/// A protocol-level error of the session.
pub enum McpError {
    /// The transport failed or closed.
    Transport(TransportError),
    /// The request violates the session protocol (for example, a call before
    /// the session was initialized).
    Protocol(String),
    /// The line was not a JSON-RPC message at all.
    InvalidMessage(String),
    /// The request named a method this server does not provide.
    UnknownMethod(String),
    /// The request's parameters do not fit the method.
    InvalidParams(String),
    /// The server failed internally.
    InternalError(String),
    /// A tool call named a tool that is not registered.
    ToolNotFound(String),
    /// A registered tool failed while running.
    ToolError(String),
}

/// A transport-layer error.
pub enum TransportError {
    StdinRead(String),
    StdoutWrite(String),
    WebSocket(String),
    ConnectionClosed,
}

/// A JSON-RPC error object.
pub struct JsonRpcError {
    pub code: i32,
    pub message: String,
    pub data: Option<JsonValue>,
}

/// The data member carrying one named detail: `{key: value}`.
pub open spec fn detail_fields(key: Seq<char>, value: Seq<char>) -> Seq<(Seq<char>, JsonModel)> {
    seq![(key, JsonModel::Str(value))]
}

fn detail_obj(key: &str, value: &str) -> (r: JsonValue)
    ensures
        r.jm() == JsonModel::Obj(detail_fields(key@, value@)),
{
    let mut fields: Vec<(String, JsonValue)> = Vec::new();
    crate::models::push_field(&mut fields, key, JsonValue::Str(value.to_owned()));
    proof {
        assert(crate::json::jm_fields(fields@) =~= detail_fields(key@, value@));
    }
    JsonValue::Obj(fields)
}

impl JsonRpcError {
    /// The error for a line that is not JSON.
    pub fn parse_error() -> (r: JsonRpcError)
        ensures
            r.code == -32700,
            r.message@ == "Parse error"@,
            r.data is None,
    {
        JsonRpcError { code: -32700, message: "Parse error".to_owned(), data: None }
    }

    /// The error for a request that violates the protocol.
    pub fn invalid_request() -> (r: JsonRpcError)
        ensures
            r.code == -32600,
            r.message@ == "Invalid Request"@,
            r.data is None,
    {
        JsonRpcError { code: -32600, message: "Invalid Request".to_owned(), data: None }
    }

    /// The error for an unknown method; the data names the method.
    pub fn method_not_found(method: &str) -> (r: JsonRpcError)
        ensures
            r.code == -32601,
            r.message@ == "Method not found"@,
            r.data matches Some(d) && d.jm() == JsonModel::Obj(detail_fields("method"@, method@)),
    {
        JsonRpcError {
            code: -32601,
            message: "Method not found".to_owned(),
            data: Some(detail_obj("method", method)),
        }
    }

    /// The error for parameters that do not fit the method; the data carries
    /// the detail.
    pub fn invalid_params(message: &str) -> (r: JsonRpcError)
        ensures
            r.code == -32602,
            r.message@ == "Invalid params"@,
            r.data matches Some(d) && d.jm() == JsonModel::Obj(detail_fields("details"@, message@)),
    {
        JsonRpcError {
            code: -32602,
            message: "Invalid params".to_owned(),
            data: Some(detail_obj("details", message)),
        }
    }

    /// The error for an internal server failure; the data carries the detail.
    pub fn internal_error(message: &str) -> (r: JsonRpcError)
        ensures
            r.code == -32603,
            r.message@ == "Internal error"@,
            r.data matches Some(d) && d.jm() == JsonModel::Obj(detail_fields("details"@, message@)),
    {
        JsonRpcError {
            code: -32603,
            message: "Internal error".to_owned(),
            data: Some(detail_obj("details", message)),
        }
    }

    /// The error for a tool that failed while running; the data carries the
    /// detail.
    pub fn tool_error(message: &str) -> (r: JsonRpcError)
        ensures
            r.code == -32000,
            r.message@ == "Tool execution error"@,
            r.data matches Some(d) && d.jm() == JsonModel::Obj(detail_fields("details"@, message@)),
    {
        JsonRpcError {
            code: -32000,
            message: "Tool execution error".to_owned(),
            data: Some(detail_obj("details", message)),
        }
    }

    /// The error for a tool name that is not registered; the data names the
    /// tool.
    pub fn tool_not_found(tool_name: &str) -> (r: JsonRpcError)
        ensures
            r.code == -32001,
            r.message@ == "Tool not found"@,
            r.data matches Some(d) && d.jm() == JsonModel::Obj(detail_fields("tool"@, tool_name@)),
    {
        JsonRpcError {
            code: -32001,
            message: "Tool not found".to_owned(),
            data: Some(detail_obj("tool", tool_name)),
        }
    }

    /// The error for an upstream API failure; the data carries the detail.
    pub fn api_error(message: &str) -> (r: JsonRpcError)
        ensures
            r.code == -32002,
            r.message@ == "EasyProject API error"@,
            r.data matches Some(d) && d.jm() == JsonModel::Obj(detail_fields("details"@, message@)),
    {
        JsonRpcError {
            code: -32002,
            message: "EasyProject API error".to_owned(),
            data: Some(detail_obj("details", message)),
        }
    }
}

/// The JSON-RPC error code each protocol error maps to.
pub open spec fn spec_rpc_code(e: McpError) -> i32 {
    match e {
        McpError::Protocol(_) => -32600i32,
        McpError::InvalidMessage(_) => -32700i32,
        McpError::UnknownMethod(_) => -32601i32,
        McpError::InvalidParams(_) => -32602i32,
        McpError::ToolNotFound(_) => -32001i32,
        McpError::ToolError(_) => -32000i32,
        McpError::InternalError(_) => -32603i32,
        McpError::Transport(_) => -32603i32,
    }
}

/// Maps a protocol error to the JSON-RPC error object that answers it: the
/// fixed message of its class, and a data member naming the method, the
/// tool, or the detail.  No failure is silent: every message is fixed and
/// non-empty.
pub fn rpc_error_of(e: &McpError) -> (r: JsonRpcError)
    ensures
        r.code == spec_rpc_code(*e),
        r.message@.len() > 0,
        match *e {
            McpError::Protocol(_) => r.message@ == "Invalid Request"@,
            McpError::InvalidMessage(_) => r.message@ == "Parse error"@,
            McpError::UnknownMethod(m) => r.message@ == "Method not found"@ && (match r.data {
                Some(d) => d.jm() == JsonModel::Obj(detail_fields("method"@, m@)),
                None => false,
            }),
            McpError::InvalidParams(m) => r.message@ == "Invalid params"@ && (match r.data {
                Some(d) => d.jm() == JsonModel::Obj(detail_fields("details"@, m@)),
                None => false,
            }),
            McpError::ToolNotFound(t) => r.message@ == "Tool not found"@ && (match r.data {
                Some(d) => d.jm() == JsonModel::Obj(detail_fields("tool"@, t@)),
                None => false,
            }),
            McpError::ToolError(m) => r.message@ == "Tool execution error"@ && (match r.data {
                Some(d) => d.jm() == JsonModel::Obj(detail_fields("details"@, m@)),
                None => false,
            }),
            McpError::InternalError(m) => r.message@ == "Internal error"@ && (match r.data {
                Some(d) => d.jm() == JsonModel::Obj(detail_fields("details"@, m@)),
                None => false,
            }),
            McpError::Transport(_) => r.message@ == "Internal error"@,
        },
{
    proof {
        reveal_strlit("Invalid Request");
        reveal_strlit("Parse error");
        reveal_strlit("Method not found");
        reveal_strlit("Invalid params");
        reveal_strlit("Tool not found");
        reveal_strlit("Tool execution error");
        reveal_strlit("Internal error");
    }
    match e {
        McpError::Protocol(_m) => JsonRpcError::invalid_request(),
        McpError::InvalidMessage(_m) => JsonRpcError::parse_error(),
        McpError::UnknownMethod(method) => JsonRpcError::method_not_found(method.as_str()),
        McpError::InvalidParams(m) => JsonRpcError::invalid_params(m.as_str()),
        McpError::ToolNotFound(tool) => JsonRpcError::tool_not_found(tool.as_str()),
        McpError::ToolError(m) => JsonRpcError::tool_error(m.as_str()),
        McpError::InternalError(m) => JsonRpcError::internal_error(m.as_str()),
        McpError::Transport(_t) => JsonRpcError::internal_error("transport failure"),
    }
}

} // verus!
