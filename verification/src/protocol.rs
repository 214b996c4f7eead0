//! The JSON-RPC message types and the protocol data carried over them:
//! message classification, initialize handshake shapes, tool descriptions,
//! and tool call results.

use vstd::prelude::*;
use crate::json::{JsonValue, JsonModel, jm_get, jm_fields};
use crate::error::{JsonRpcError, McpError};
use crate::models::{jget_str, push_field, push_ostr_field, push_str_field, fld_ostr};

verus! {

broadcast use vstd::std_specs::vec::group_vec_axioms, vstd::seq::group_seq_axioms;

/// A JSON-RPC request (or notification, when it carries no id).
pub struct JsonRpcRequest {
    pub jsonrpc: String,
    pub method: String,
    pub params: Option<JsonValue>,
    pub id: Option<JsonValue>,
}

/// A JSON-RPC response: exactly one of `result` and `error` is set.
pub struct JsonRpcResponse {
    pub jsonrpc: String,
    pub result: Option<JsonValue>,
    pub error: Option<JsonRpcError>,
    pub id: Option<JsonValue>,
}

impl JsonRpcResponse {
    /// A successful response carrying `result`, correlated to `id`.
    pub fn success(id: Option<JsonValue>, result: JsonValue) -> (r: JsonRpcResponse)
        ensures
            r.jsonrpc@ == "2.0"@,
            r.result == Some(result),
            r.error is None,
            r.id == id,
    {
        JsonRpcResponse { jsonrpc: "2.0".to_owned(), result: Some(result), error: None, id }
    }

    /// An error response carrying `error`, correlated to `id`.
    pub fn error(id: Option<JsonValue>, error: JsonRpcError) -> (r: JsonRpcResponse)
        ensures
            r.jsonrpc@ == "2.0"@,
            r.result is None,
            r.error == Some(error),
            r.id == id,
    {
        JsonRpcResponse { jsonrpc: "2.0".to_owned(), result: None, error: Some(error), id }
    }
}

/// One protocol message: a request expecting a response, a response, or a
/// notification (a request without an id, which never gets a response).
pub enum McpMessage {
    Request(JsonRpcRequest),
    Response(JsonRpcResponse),
    Notification(JsonRpcRequest),
}

/// How a decoded JSON value classifies as a message:
/// a `result` or `error` member makes it a response; otherwise it must carry
/// string `jsonrpc` and `method` members, and the presence of `id` separates
/// requests from notifications.
pub open spec fn spec_message_kind(m: JsonModel) -> Option<MessageKind> {
    if jm_get(m, "result"@) is Some || jm_get(m, "error"@) is Some {
        Some(MessageKind::ResponseKind)
    } else {
        match (jget_str(m, "jsonrpc"@), jget_str(m, "method"@)) {
            (Some(_), Some(_)) => {
                if jm_get(m, "id"@) is Some {
                    Some(MessageKind::RequestKind)
                } else {
                    Some(MessageKind::NotificationKind)
                }
            },
            _ => None,
        }
    }
}

/// The three message classes.
#[derive(PartialEq, Eq, Structural, Clone, Copy, Debug)]
pub enum MessageKind {
    RequestKind,
    ResponseKind,
    NotificationKind,
}

/// Classifies one decoded line into a message.  An inbound response keeps
/// only its correlation id: its result and error members are deliberately
/// dropped, since this server never issues requests and only notes stray
/// responses.  Requests and notifications keep their method, params and id.
pub fn message_from_json(v: &JsonValue) -> (r: Result<McpMessage, McpError>)
    ensures
        match r {
            Ok(McpMessage::Response(resp)) => spec_message_kind(v.jm()) == Some(
                MessageKind::ResponseKind,
            ) && resp.result is None && resp.error is None && (match resp.id {
                Some(x) => jm_get(v.jm(), "id"@) == Some(x.jm()),
                None => jm_get(v.jm(), "id"@) is None,
            }),
            Ok(McpMessage::Request(req)) => spec_message_kind(v.jm()) == Some(
                MessageKind::RequestKind,
            ) && Some(req.method@) == jget_str(v.jm(), "method"@) && (match req.id {
                Some(x) => jm_get(v.jm(), "id"@) == Some(x.jm()),
                None => false,
            }) && (match req.params {
                Some(x) => jm_get(v.jm(), "params"@) == Some(x.jm()),
                None => jm_get(v.jm(), "params"@) is None || jm_get(v.jm(), "params"@) == Some(
                    JsonModel::Null,
                ),
            }),
            Ok(McpMessage::Notification(req)) => spec_message_kind(v.jm()) == Some(
                MessageKind::NotificationKind,
            ) && Some(req.method@) == jget_str(v.jm(), "method"@) && req.id is None,
            Err(e) => spec_message_kind(v.jm()) is None && e matches McpError::InvalidMessage(_),
        },
{
    let has_result = match v.get("result") {
        Some(_) => true,
        None => false,
    };
    let has_error = match v.get("error") {
        Some(_) => true,
        None => false,
    };
    if has_result || has_error {
        let id = match v.get("id") {
            Some(x) => Some(crate::cache::clone_json(x)),
            None => None,
        };
        return Ok(
            McpMessage::Response(
                JsonRpcResponse { jsonrpc: "2.0".to_owned(), result: None, error: None, id },
            ),
        );
    }
    let jsonrpc = match v.get("jsonrpc") {
        Some(x) => match x.as_str() {
            Some(t) => t.clone(),
            None => {
                return Err(McpError::InvalidMessage("jsonrpc member is not a string".to_owned()));
            },
        },
        None => {
            return Err(McpError::InvalidMessage("jsonrpc member is missing".to_owned()));
        },
    };
    let method = match v.get("method") {
        Some(x) => match x.as_str() {
            Some(t) => t.clone(),
            None => {
                return Err(McpError::InvalidMessage("method member is not a string".to_owned()));
            },
        },
        None => {
            return Err(McpError::InvalidMessage("method member is missing".to_owned()));
        },
    };
    let params = match v.get("params") {
        Some(x) => match x {
            JsonValue::Null => None,
            _ => Some(crate::cache::clone_json(x)),
        },
        None => None,
    };
    match v.get("id") {
        Some(x) => {
            let id = Some(crate::cache::clone_json(x));
            Ok(McpMessage::Request(JsonRpcRequest { jsonrpc, method, params, id }))
        },
        None => Ok(McpMessage::Notification(JsonRpcRequest { jsonrpc, method, params, id: None })),
    }
}

/// Parses one transport line into a message: a line that is not JSON at all
/// or is JSON of no message shape is an invalid-message error, and a line
/// that is a message is classified exactly as `message_from_json` states.
pub fn message_from_line(line: &str) -> (r: Result<McpMessage, McpError>)
    ensures
        match r {
            Ok(McpMessage::Response(resp)) => crate::json::sp_json(line@) matches Some(m)
                && spec_message_kind(m) == Some(MessageKind::ResponseKind) && resp.result is None
                && resp.error is None,
            Ok(McpMessage::Request(req)) => crate::json::sp_json(line@) matches Some(m) && ({
                &&& spec_message_kind(m) == Some(MessageKind::RequestKind)
                &&& Some(req.method@) == jget_str(m, "method"@)
                &&& (match req.id {
                    Some(x) => jm_get(m, "id"@) == Some(x.jm()),
                    None => false,
                })
                &&& (match req.params {
                    Some(x) => jm_get(m, "params"@) == Some(x.jm()),
                    None => jm_get(m, "params"@) is None || jm_get(m, "params"@) == Some(
                        crate::json::JsonModel::Null,
                    ),
                })
            }),
            Ok(McpMessage::Notification(req)) => crate::json::sp_json(line@) matches Some(m)
                && spec_message_kind(m) == Some(MessageKind::NotificationKind) && Some(req.method@)
                == jget_str(m, "method"@) && req.id is None,
            Err(e) => (crate::json::sp_json(line@) is None || spec_message_kind(
                crate::json::sp_json(line@)->0,
            ) is None) && e matches McpError::InvalidMessage(_),
        },
{
    match crate::json::parse_json_text(line) {
        Some(v) => message_from_json(&v),
        None => Err(McpError::InvalidMessage("line is not JSON".to_owned())),
    }
}

/// The serialized form of a JSON-RPC error object.
pub open spec fn rpc_error_fields(e: JsonRpcError) -> Seq<(Seq<char>, JsonModel)> {
    seq![
        ("code"@, JsonModel::Num(crate::text::dec_int(e.code as int))),
        ("message"@, JsonModel::Str(e.message@)),
    ] + (match e.data {
        Some(d) => seq![("data"@, d.jm())],
        None => Seq::<(Seq<char>, JsonModel)>::empty(),
    })
}

/// The serialized form of a response: `jsonrpc`, then `result` or `error`,
/// then the correlation id — absent members are omitted, as on the wire.
pub open spec fn response_fields(r: JsonRpcResponse) -> Seq<(Seq<char>, JsonModel)> {
    seq![("jsonrpc"@, JsonModel::Str(r.jsonrpc@))] + (match r.result {
        Some(v) => seq![("result"@, v.jm())],
        None => Seq::<(Seq<char>, JsonModel)>::empty(),
    }) + (match r.error {
        Some(e) => seq![("error"@, JsonModel::Obj(rpc_error_fields(e)))],
        None => Seq::<(Seq<char>, JsonModel)>::empty(),
    }) + (match r.id {
        Some(v) => seq![("id"@, v.jm())],
        None => Seq::<(Seq<char>, JsonModel)>::empty(),
    })
}

/// Builds the JSON value a response serializes to.
pub fn response_to_json(r: JsonRpcResponse) -> (out: JsonValue)
    ensures
        out.jm() == JsonModel::Obj(response_fields(r)),
{
    let ghost gr = r;
    let JsonRpcResponse { jsonrpc, result, error, id } = r;
    let mut fields: Vec<(String, JsonValue)> = Vec::new();
    push_str_field(&mut fields, "jsonrpc", &jsonrpc);
    match result {
        Some(v) => push_field(&mut fields, "result", v),
        None => {},
    }
    match error {
        Some(e) => {
            let ghost ge = e;
            let JsonRpcError { code, message, data } = e;
            let mut efields: Vec<(String, JsonValue)> = Vec::new();
            push_i32_field_local(&mut efields, "code", code);
            push_str_field(&mut efields, "message", &message);
            match data {
                Some(d) => push_field(&mut efields, "data", d),
                None => {},
            }
            proof {
                assert(jm_fields(efields@) =~= rpc_error_fields(ge));
            }
            push_field(&mut fields, "error", JsonValue::Obj(efields));
        },
        None => {},
    }
    match id {
        Some(v) => push_field(&mut fields, "id", v),
        None => {},
    }
    proof {
        assert(jm_fields(fields@) =~= response_fields(gr));
    }
    JsonValue::Obj(fields)
}

/// Serializes a response to its wire line (without the newline).
pub fn response_to_line(r: JsonRpcResponse) -> (out: String)
    ensures
        out@ == crate::json::ser(JsonModel::Obj(response_fields(r))),
{
    let v = response_to_json(r);
    crate::json::json_to_string(&v)
}

fn push_i32_field_local(fields: &mut Vec<(String, JsonValue)>, key: &str, n: i32)
    ensures
        jm_fields(final(fields)@) == jm_fields(old(fields)@).push(
            (key@, JsonModel::Num(crate::text::dec_int(n as int))),
        ),
{
    crate::models::push_i32_field(fields, key, n)
}

// ===== handshake shapes =====

/// The client identity declared at initialization.
pub struct ClientInfo {
    pub name: String,
    pub version: String,
}

/// The decoded parameters of an `initialize` request.
pub struct InitializeParams {
    pub protocol_version: String,
    pub client_name: String,
    pub client_version: String,
}

/// Reads initialize parameters: the protocol version and client identity
/// are required, capabilities are accepted but not interpreted.
pub open spec fn spec_initialize_params(m: JsonModel) -> Option<
    (Seq<char>, Seq<char>, Seq<char>),
> {
    match (jget_str(m, "protocolVersion"@), jm_get(m, "clientInfo"@)) {
        (Some(pv), Some(ci)) => match (jget_str(ci, "name"@), jget_str(ci, "version"@)) {
            (Some(n), Some(ver)) => Some((pv, n, ver)),
            _ => None,
        },
        _ => None,
    }
}

/// Decodes initialize parameters.
pub fn decode_initialize_params(v: &JsonValue) -> (r: Option<InitializeParams>)
    ensures
        match r {
            Some(p) => spec_initialize_params(v.jm()) == Some(
                (p.protocol_version@, p.client_name@, p.client_version@),
            ),
            None => spec_initialize_params(v.jm()) is None,
        },
{
    let pv = match v.get("protocolVersion") {
        Some(x) => match x.as_str() {
            Some(t) => t.clone(),
            None => {
                return None;
            },
        },
        None => {
            return None;
        },
    };
    match v.get("clientInfo") {
        Some(ci) => {
            let n = match ci.get("name") {
                Some(x) => match x.as_str() {
                    Some(t) => t.clone(),
                    None => {
                        return None;
                    },
                },
                None => {
                    return None;
                },
            };
            let ver = match ci.get("version") {
                Some(x) => match x.as_str() {
                    Some(t) => t.clone(),
                    None => {
                        return None;
                    },
                },
                None => {
                    return None;
                },
            };
            Some(InitializeParams { protocol_version: pv, client_name: n, client_version: ver })
        },
        None => None,
    }
}

/// The protocol revision this server speaks.
pub fn protocol_revision() -> (r: &'static str)
    ensures
        r@ == "2024-11-05"@,
{
    "2024-11-05"
}

/// The prompt capability flags announced at initialization.
pub struct PromptsCapability {
    pub list_changed: Option<bool>,
}

/// The resource capability flags announced at initialization.
pub struct ResourcesCapability {
    pub subscribe: Option<bool>,
    pub list_changed: Option<bool>,
}

/// The tool capability flags announced at initialization.
pub struct ToolsCapability {
    pub list_changed: Option<bool>,
}

/// The server identity announced at initialization.
pub struct ServerInfo {
    pub name: String,
    pub version: String,
}

/// The severity scale of protocol log notifications.
pub enum LoggingLevel {
    Debug,
    Info,
    Notice,
    Warning,
    Error,
    Critical,
    Alert,
    Emergency,
}

/// The serialized capabilities object: logging on, prompts and resources
/// present but static, tools present and static.
pub open spec fn capabilities_fields() -> Seq<(Seq<char>, JsonModel)> {
    seq![
        ("logging"@, JsonModel::Obj(Seq::empty())),
        (
            "prompts"@,
            JsonModel::Obj(seq![("listChanged"@, JsonModel::Bool(false))]),
        ),
        (
            "resources"@,
            JsonModel::Obj(
                seq![
                    ("subscribe"@, JsonModel::Bool(false)),
                    ("listChanged"@, JsonModel::Bool(false)),
                ],
            ),
        ),
        ("tools"@, JsonModel::Obj(seq![("listChanged"@, JsonModel::Bool(false))])),
    ]
}

/// The serialized initialize result for a server identity.
pub open spec fn initialize_result_fields(
    name: Seq<char>,
    version: Seq<char>,
    instructions: Seq<char>,
) -> Seq<(Seq<char>, JsonModel)> {
    seq![
        ("protocolVersion"@, JsonModel::Str("2024-11-05"@)),
        ("capabilities"@, JsonModel::Obj(capabilities_fields())),
        (
            "serverInfo"@,
            JsonModel::Obj(
                seq![("name"@, JsonModel::Str(name)), ("version"@, JsonModel::Str(version))],
            ),
        ),
        ("instructions"@, JsonModel::Str(instructions)),
    ]
}

/// Builds the initialize result body.
pub fn initialize_result_json(name: &String, version: &String, instructions: &String) -> (r:
    JsonValue)
    ensures
        r.jm() == JsonModel::Obj(initialize_result_fields(name@, version@, instructions@)),
{
    let mut caps: Vec<(String, JsonValue)> = Vec::new();
    push_field(&mut caps, "logging", JsonValue::Obj(Vec::new()));
    let mut prompts: Vec<(String, JsonValue)> = Vec::new();
    push_field(&mut prompts, "listChanged", JsonValue::Bool(false));
    proof {
        assert(jm_fields(prompts@) =~= seq![("listChanged"@, JsonModel::Bool(false))]);
    }
    push_field(&mut caps, "prompts", JsonValue::Obj(prompts));
    let mut resources: Vec<(String, JsonValue)> = Vec::new();
    push_field(&mut resources, "subscribe", JsonValue::Bool(false));
    push_field(&mut resources, "listChanged", JsonValue::Bool(false));
    proof {
        assert(jm_fields(resources@) =~= seq![
            ("subscribe"@, JsonModel::Bool(false)),
            ("listChanged"@, JsonModel::Bool(false)),
        ]);
    }
    push_field(&mut caps, "resources", JsonValue::Obj(resources));
    let mut toolsobj: Vec<(String, JsonValue)> = Vec::new();
    push_field(&mut toolsobj, "listChanged", JsonValue::Bool(false));
    proof {
        assert(jm_fields(toolsobj@) =~= seq![("listChanged"@, JsonModel::Bool(false))]);
    }
    push_field(&mut caps, "tools", JsonValue::Obj(toolsobj));
    proof {
        assert(jm_fields(caps@) =~= capabilities_fields());
    }
    let mut server_info: Vec<(String, JsonValue)> = Vec::new();
    push_str_field(&mut server_info, "name", name);
    push_str_field(&mut server_info, "version", version);
    proof {
        assert(jm_fields(server_info@) =~= seq![
            ("name"@, JsonModel::Str(name@)),
            ("version"@, JsonModel::Str(version@)),
        ]);
    }
    let mut fields: Vec<(String, JsonValue)> = Vec::new();
    push_field(&mut fields, "protocolVersion", JsonValue::Str(protocol_revision().to_owned()));
    push_field(&mut fields, "capabilities", JsonValue::Obj(caps));
    push_field(&mut fields, "serverInfo", JsonValue::Obj(server_info));
    push_str_field(&mut fields, "instructions", instructions);
    proof {
        assert(jm_fields(fields@) =~= initialize_result_fields(name@, version@, instructions@));
    }
    JsonValue::Obj(fields)
}

// ===== tool descriptions =====

/// The declared input schema of a tool.
pub struct ToolInputSchema {
    pub schema_type: String,
    pub properties: Option<JsonValue>,
    pub required: Option<Vec<String>>,
    pub additional_properties: Option<bool>,
}

impl ToolInputSchema {
    /// A bare object schema that admits no undeclared members.
    pub fn object() -> (r: ToolInputSchema)
        ensures
            r.schema_type@ == "object"@,
            r.properties is None,
            r.required is None,
            r.additional_properties == Some(false),
    {
        ToolInputSchema {
            schema_type: "object".to_owned(),
            properties: None,
            required: None,
            additional_properties: Some(false),
        }
    }

    /// The same schema with the given properties.
    pub fn with_properties(self, properties: JsonValue) -> (r: ToolInputSchema)
        ensures
            r == (ToolInputSchema { properties: Some(properties), ..self }),
    {
        ToolInputSchema { properties: Some(properties), ..self }
    }

    /// The same schema with the given required member names.
    pub fn with_required(self, required: Vec<String>) -> (r: ToolInputSchema)
        ensures
            r == (ToolInputSchema { required: Some(required), ..self }),
    {
        ToolInputSchema { required: Some(required), ..self }
    }
}

/// One registered tool, as announced to the client.
pub struct Tool {
    pub name: String,
    pub description: String,
    pub input_schema: ToolInputSchema,
}

/// The decoded parameters of a `tools/call` request.
pub struct CallToolParams {
    pub name: String,
    pub arguments: Option<JsonValue>,
}

/// Reads tool call parameters: the tool name is required; arguments are
/// optional and carried through opaquely.
pub open spec fn spec_call_params(m: JsonModel) -> Option<(Seq<char>, Option<JsonModel>)> {
    match jget_str(m, "name"@) {
        Some(n) => Some(
            (
                n,
                match jm_get(m, "arguments"@) {
                    Some(JsonModel::Null) => None,
                    Some(a) => Some(a),
                    None => None,
                },
            ),
        ),
        None => None,
    }
}

/// Decodes tool call parameters.
pub fn decode_call_params(v: &JsonValue) -> (r: Option<CallToolParams>)
    ensures
        match r {
            Some(p) => spec_call_params(v.jm()) == Some(
                (
                    p.name@,
                    match p.arguments {
                        Some(a) => Some(a.jm()),
                        None => None::<JsonModel>,
                    },
                ),
            ),
            None => spec_call_params(v.jm()) is None,
        },
{
    let name = match v.get("name") {
        Some(x) => match x.as_str() {
            Some(t) => t.clone(),
            None => {
                return None;
            },
        },
        None => {
            return None;
        },
    };
    let arguments = match v.get("arguments") {
        Some(x) => match x {
            JsonValue::Null => None,
            _ => Some(crate::cache::clone_json(x)),
        },
        None => None,
    };
    Some(CallToolParams { name, arguments })
}

/// One piece of tool output.
pub enum ToolResult {
    Text { text: String },
    Image { data: String, mime_type: String },
    Resource { resource: ResourceReference },
}

/// A resource reference in tool output.
pub struct ResourceReference {
    pub uri: String,
    pub text: Option<String>,
}

impl ToolResult {
    /// A text result.
    pub fn text(text: String) -> (r: ToolResult)
        ensures
            r == (ToolResult::Text { text }),
    {
        ToolResult::Text { text }
    }

    /// An image result.
    pub fn image(data: String, mime_type: String) -> (r: ToolResult)
        ensures
            r == (ToolResult::Image { data, mime_type }),
    {
        ToolResult::Image { data, mime_type }
    }
}

/// What one tool call produced: content pieces, and whether they report a
/// failure.  A failing tool is a successful response with `is_error` set —
/// the caller needs failures as readable text, not as protocol errors.
pub struct CallToolResult {
    pub content: Vec<ToolResult>,
    pub is_error: Option<bool>,
}

impl CallToolResult {
    /// A successful tool result.
    pub fn success(content: Vec<ToolResult>) -> (r: CallToolResult)
        ensures
            r.content == content,
            r.is_error == Some(false),
    {
        CallToolResult { content, is_error: Some(false) }
    }

    /// A failed tool result, reported in band.
    pub fn error(content: Vec<ToolResult>) -> (r: CallToolResult)
        ensures
            r.content == content,
            r.is_error == Some(true),
    {
        CallToolResult { content, is_error: Some(true) }
    }
}

/// The serialized form of one content piece.
pub open spec fn tool_result_fields(t: ToolResult) -> Seq<(Seq<char>, JsonModel)> {
    match t {
        ToolResult::Text { text } => seq![
            ("type"@, JsonModel::Str("text"@)),
            ("text"@, JsonModel::Str(text@)),
        ],
        ToolResult::Image { data, mime_type } => seq![
            ("type"@, JsonModel::Str("image"@)),
            ("data"@, JsonModel::Str(data@)),
            ("mimeType"@, JsonModel::Str(mime_type@)),
        ],
        ToolResult::Resource { resource } => seq![("type"@, JsonModel::Str("resource"@))] + seq![
            (
                "resource"@,
                JsonModel::Obj(
                    seq![("uri"@, JsonModel::Str(resource.uri@))] + fld_ostr(
                        "text"@,
                        crate::ops::ostr(resource.text),
                    ),
                ),
            ),
        ],
    }
}

/// The serialized pieces of a tool result's content, from index `i` on.
pub open spec fn tool_contents_from(content: Seq<ToolResult>, i: int) -> Seq<JsonModel>
    decreases content.len() - i,
{
    if i < 0 || i >= content.len() {
        Seq::empty()
    } else {
        seq![JsonModel::Obj(tool_result_fields(content[i]))] + tool_contents_from(content, i + 1)
    }
}

/// The serialized pieces of a tool result's content.
pub open spec fn tool_contents(content: Seq<ToolResult>) -> Seq<JsonModel> {
    tool_contents_from(content, 0)
}

/// The models of a list of JSON values, element by element.
pub open spec fn jms(items: Seq<JsonValue>) -> Seq<JsonModel> {
    items.map_values(|x: JsonValue| x.jm())
}

/// The serialized form of a whole tool result.
pub open spec fn call_result_fields(r: CallToolResult) -> Seq<(Seq<char>, JsonModel)> {
    seq![("content"@, JsonModel::Arr(tool_contents(r.content@)))] + (match r.is_error {
        Some(b) => seq![("isError"@, JsonModel::Bool(b))],
        None => Seq::<(Seq<char>, JsonModel)>::empty(),
    })
}

/// Builds the JSON value a tool result serializes to.
pub fn call_result_to_json(r: &CallToolResult) -> (out: JsonValue)
    ensures
        out.jm() == JsonModel::Obj(call_result_fields(*r)),
{
    let mut items: Vec<JsonValue> = Vec::new();
    let mut i: usize = 0;
    while i < r.content.len()
        invariant
            i <= r.content@.len(),
            items@.len() == i,
            jms(items@) + tool_contents_from(r.content@, i as int) == tool_contents(r.content@),
        decreases r.content@.len() - i,
    {
        let ghost old_items = items@;
        let piece = tool_result_to_json(&r.content[i]);
        items.push(piece);
        proof {
            assert(jms(items@) =~= jms(old_items).push(
                JsonModel::Obj(tool_result_fields(r.content@[i as int])),
            ));
            assert(jms(items@) + tool_contents_from(r.content@, i + 1 as int) =~= jms(old_items)
                + tool_contents_from(r.content@, i as int));
        }
        i = i + 1;
    }
    proof {
        assert(jms(items@) + tool_contents_from(r.content@, i as int) =~= jms(items@));
        crate::json::lemma_jm_seq(items@);
        assert(crate::json::jm_seq(items@) =~= jms(items@));
    }
    let mut fields: Vec<(String, JsonValue)> = Vec::new();
    push_field(&mut fields, "content", JsonValue::Arr(items));
    match &r.is_error {
        Some(b) => push_field(&mut fields, "isError", JsonValue::Bool(*b)),
        None => {},
    }
    proof {
        assert(jm_fields(fields@) =~= call_result_fields(*r));
    }
    JsonValue::Obj(fields)
}

fn tool_result_to_json(t: &ToolResult) -> (out: JsonValue)
    ensures
        out.jm() == JsonModel::Obj(tool_result_fields(*t)),
{
    let mut fields: Vec<(String, JsonValue)> = Vec::new();
    match t {
        ToolResult::Text { text } => {
            push_field(&mut fields, "type", JsonValue::Str("text".to_owned()));
            push_str_field(&mut fields, "text", text);
            proof {
                assert(jm_fields(fields@) =~= tool_result_fields(*t));
            }
        },
        ToolResult::Image { data, mime_type } => {
            push_field(&mut fields, "type", JsonValue::Str("image".to_owned()));
            push_str_field(&mut fields, "data", data);
            push_str_field(&mut fields, "mimeType", mime_type);
            proof {
                assert(jm_fields(fields@) =~= tool_result_fields(*t));
            }
        },
        ToolResult::Resource { resource } => {
            push_field(&mut fields, "type", JsonValue::Str("resource".to_owned()));
            let mut rfields: Vec<(String, JsonValue)> = Vec::new();
            push_str_field(&mut rfields, "uri", &resource.uri);
            push_ostr_field(&mut rfields, "text", &resource.text);
            proof {
                assert(jm_fields(rfields@) =~= seq![("uri"@, JsonModel::Str(resource.uri@))]
                    + fld_ostr("text"@, crate::ops::ostr(resource.text)));
            }
            push_field(&mut fields, "resource", JsonValue::Obj(rfields));
            proof {
                assert(jm_fields(fields@) =~= tool_result_fields(*t));
            }
        },
    }
    JsonValue::Obj(fields)
}

/// The optional parameters of a `tools/list` request.
pub struct ListToolsParams {
    pub cursor: Option<String>,
}

impl core::default::Default for ListToolsParams {
    /// The default: no cursor.
    fn default() -> (r: ListToolsParams)
        ensures
            r.cursor is None,
    {
        ListToolsParams { cursor: None }
    }
}

/// The names of required members, serialized as an array of strings.
pub open spec fn required_list(names: Seq<String>) -> Seq<JsonModel> {
    names.map_values(|n: String| JsonModel::Str(n@))
}

/// The serialized form of an input schema: its type, its properties and
/// required members when declared, and the additional-properties flag.
pub open spec fn schema_fields(s: ToolInputSchema) -> Seq<(Seq<char>, JsonModel)> {
    seq![("type"@, JsonModel::Str(s.schema_type@))] + (match s.properties {
        Some(p) => seq![("properties"@, p.jm())],
        None => Seq::<(Seq<char>, JsonModel)>::empty(),
    }) + (match s.required {
        Some(names) => seq![("required"@, JsonModel::Arr(required_list(names@)))],
        None => Seq::<(Seq<char>, JsonModel)>::empty(),
    }) + (match s.additional_properties {
        Some(b) => seq![("additionalProperties"@, JsonModel::Bool(b))],
        None => Seq::<(Seq<char>, JsonModel)>::empty(),
    })
}

/// The serialized form of one announced tool.
pub open spec fn tool_fields(t: Tool) -> Seq<(Seq<char>, JsonModel)> {
    seq![
        ("name"@, JsonModel::Str(t.name@)),
        ("description"@, JsonModel::Str(t.description@)),
        ("inputSchema"@, JsonModel::Obj(schema_fields(t.input_schema))),
    ]
}

/// The serialized list of announced tools, from index `i` on.
pub open spec fn tools_list_from(tools: Seq<Tool>, i: int) -> Seq<JsonModel>
    decreases tools.len() - i,
{
    if i < 0 || i >= tools.len() {
        Seq::empty()
    } else {
        seq![JsonModel::Obj(tool_fields(tools[i]))] + tools_list_from(tools, i + 1)
    }
}

/// The serialized list of announced tools.
pub open spec fn tools_list(tools: Seq<Tool>) -> Seq<JsonModel> {
    tools_list_from(tools, 0)
}

/// The serialized `tools/list` result.
pub open spec fn tools_list_fields(tools: Seq<Tool>) -> Seq<(Seq<char>, JsonModel)> {
    seq![("tools"@, JsonModel::Arr(tools_list(tools)))]
}

/// Builds the `tools/list` result body: every registered tool, no paging
/// (the optional cursor is accepted and ignored).
pub fn tools_list_json(tools: &Vec<Tool>) -> (out: JsonValue)
    ensures
        out.jm() == JsonModel::Obj(tools_list_fields(tools@)),
{
    let mut items: Vec<JsonValue> = Vec::new();
    let mut i: usize = 0;
    while i < tools.len()
        invariant
            i <= tools@.len(),
            items@.len() == i,
            jms(items@) + tools_list_from(tools@, i as int) == tools_list(tools@),
        decreases tools@.len() - i,
    {
        let ghost old_items = items@;
        let piece = tool_to_json(&tools[i]);
        items.push(piece);
        proof {
            assert(jms(items@) =~= jms(old_items).push(
                JsonModel::Obj(tool_fields(tools@[i as int])),
            ));
            assert(jms(items@) + tools_list_from(tools@, i + 1 as int) =~= jms(old_items)
                + tools_list_from(tools@, i as int));
        }
        i = i + 1;
    }
    proof {
        assert(jms(items@) + tools_list_from(tools@, i as int) =~= jms(items@));
        crate::json::lemma_jm_seq(items@);
        assert(crate::json::jm_seq(items@) =~= jms(items@));
    }
    let mut fields: Vec<(String, JsonValue)> = Vec::new();
    push_field(&mut fields, "tools", JsonValue::Arr(items));
    proof {
        assert(jm_fields(fields@) =~= tools_list_fields(tools@));
    }
    JsonValue::Obj(fields)
}

fn tool_to_json(t: &Tool) -> (out: JsonValue)
    ensures
        out.jm() == JsonModel::Obj(tool_fields(*t)),
{
    let mut sfields: Vec<(String, JsonValue)> = Vec::new();
    push_str_field(&mut sfields, "type", &t.input_schema.schema_type);
    match &t.input_schema.properties {
        Some(p) => {
            let copy = crate::cache::clone_json(p);
            push_field(&mut sfields, "properties", copy);
        },
        None => {},
    }
    match &t.input_schema.required {
        Some(names) => {
            let mut items: Vec<JsonValue> = Vec::new();
            let mut i: usize = 0;
            while i < names.len()
                invariant
                    i <= names@.len(),
                    items@.len() == i,
                    forall|k: int| 0 <= k < i ==> (#[trigger] items@[k]).jm() == JsonModel::Str(
                        names@[k]@,
                    ),
                decreases names@.len() - i,
            {
                items.push(JsonValue::Str(names[i].clone()));
                i = i + 1;
            }
            proof {
                crate::json::lemma_jm_seq(items@);
                assert forall|k: int| 0 <= k < items@.len() implies crate::json::jm_seq(items@)[k]
                    == required_list(names@)[k] by {
                    assert(crate::json::jm_seq(items@)[k] == items@[k].jm());
                    assert(required_list(names@)[k] == JsonModel::Str(names@[k]@));
                }
                assert(crate::json::jm_seq(items@) =~= required_list(names@));
            }
            push_field(&mut sfields, "required", JsonValue::Arr(items));
        },
        None => {},
    }
    match &t.input_schema.additional_properties {
        Some(b) => push_field(&mut sfields, "additionalProperties", JsonValue::Bool(*b)),
        None => {},
    }
    proof {
        assert(jm_fields(sfields@) =~= schema_fields(t.input_schema));
    }
    let mut fields: Vec<(String, JsonValue)> = Vec::new();
    push_str_field(&mut fields, "name", &t.name);
    push_str_field(&mut fields, "description", &t.description);
    push_field(&mut fields, "inputSchema", JsonValue::Obj(sfields));
    proof {
        assert(jm_fields(fields@) =~= tool_fields(*t));
    }
    JsonValue::Obj(fields)
}

} // verus!
