//! The JSON-RPC 2.0 front end of the HTTP transport: envelope checks,
//! method routing, parameter checks, error envelopes and the session marker.
//!
//! The wire value type (the request's `id`, a handler's result) is a type
//! parameter: the router never looks inside it, and echoes the `id` as it
//! came.

use vstd::prelude::*;
use vstd::string::StringExecFns;
use crate::text::{starts_with, starts_with_spec, str_equals};

verus! {

pub const INVALID_REQUEST: i32 = -32600;
pub const METHOD_NOT_FOUND: i32 = -32601;
pub const INVALID_PARAMS: i32 = -32602;
pub const INTERNAL_ERROR: i32 = -32603;

/// Protocol version that `initialize` announces and records.
pub open spec fn protocol_version() -> Seq<char> {
    "2024-11-05"@
}

/// The error member of a response.
#[derive(Debug, Clone)]
pub struct JsonRpcError {
    pub code: i32,
    pub message: String,
}

/// A response: `result` or `error`, never both, and the request's `id`.
#[derive(Debug, Clone)]
pub struct JsonRpcResponse<V> {
    pub jsonrpc: String,
    pub id: Option<V>,
    pub result: Option<V>,
    pub error: Option<JsonRpcError>,
}

/// A response is well formed: version `2.0`, and exactly one of a result
/// and an error.
pub open spec fn well_formed<V>(r: JsonRpcResponse<V>) -> bool {
    r.jsonrpc@ == "2.0"@ && (r.result is Some <==> r.error is None)
}

impl<V> JsonRpcResponse<V> {
    /// A success carrying `result`.
    pub fn success(id: Option<V>, result: V) -> (r: JsonRpcResponse<V>)
        ensures
            well_formed(r),
            r.id == id,
            r.result == Some(result),
    {
        JsonRpcResponse { jsonrpc: String::from_str("2.0"), id, result: Some(result), error: None }
    }

    /// An error with `code` and `message`.
    pub fn error(id: Option<V>, code: i32, message: String) -> (r: JsonRpcResponse<V>)
        ensures
            well_formed(r),
            r.id == id,
            r.error is Some,
            r.error->Some_0.code == code,
            r.error->Some_0.message == message,
    {
        JsonRpcResponse {
            jsonrpc: String::from_str("2.0"),
            id,
            result: None,
            error: Some(JsonRpcError { code, message }),
        }
    }

    pub fn method_not_found(id: Option<V>) -> (r: JsonRpcResponse<V>)
        ensures
            well_formed(r),
            r.id == id,
            r.error is Some,
            r.error->Some_0.code == METHOD_NOT_FOUND,
            r.error->Some_0.message@ == "Method not found"@,
    {
        JsonRpcResponse::error(id, METHOD_NOT_FOUND, String::from_str("Method not found"))
    }

    pub fn invalid_request(id: Option<V>) -> (r: JsonRpcResponse<V>)
        ensures
            well_formed(r),
            r.id == id,
            r.error is Some,
            r.error->Some_0.code == INVALID_REQUEST,
            r.error->Some_0.message@ == "Invalid Request"@,
    {
        JsonRpcResponse::error(id, INVALID_REQUEST, String::from_str("Invalid Request"))
    }

    pub fn invalid_params(id: Option<V>, msg: String) -> (r: JsonRpcResponse<V>)
        ensures
            well_formed(r),
            r.id == id,
            r.error is Some,
            r.error->Some_0.code == INVALID_PARAMS,
            r.error->Some_0.message == msg,
    {
        JsonRpcResponse::error(id, INVALID_PARAMS, msg)
    }

    pub fn internal_error(id: Option<V>, msg: String) -> (r: JsonRpcResponse<V>)
        ensures
            well_formed(r),
            r.id == id,
            r.error is Some,
            r.error->Some_0.code == INTERNAL_ERROR,
            r.error->Some_0.message == msg,
    {
        JsonRpcResponse::error(id, INTERNAL_ERROR, msg)
    }
}

/// What the router reads of a request's `params`: whether it is there, its
/// `name` and `uri` members where they are strings, and whether it has an
/// `arguments` member.
#[derive(Debug, Clone)]
pub struct RpcParams {
    pub present: bool,
    pub name: Option<String>,
    pub uri: Option<String>,
    pub has_arguments: bool,
}

/// Where a request goes.
#[derive(Debug, Clone)]
pub enum RpcRoute {
    Initialize,
    ListTools,
    /// Call the named tool with the request's `arguments`.
    CallTool { name: String },
    ListResources,
    ListResourceTemplates,
    ReadResource { uri: String },
    ListPrompts,
    /// Render the named prompt with the request's `arguments`, if any.
    GetPrompt { name: String },
    /// A notification: answered with a null success.
    Notification { initialized: bool },
    /// Answered at once with this error.
    Reject { code: i32, message: String },
}

/// The method table, for a request whose version is `2.0`. `0`: unknown.
pub open spec fn method_code(m: Seq<char>) -> int {
    if m == "initialize"@ { 1 }
    else if m == "tools/list"@ { 2 }
    else if m == "tools/call"@ { 3 }
    else if m == "resources/list"@ { 4 }
    else if m == "resources/templates/list"@ { 5 }
    else if m == "resources/read"@ { 6 }
    else if m == "prompts/list"@ { 7 }
    else if m == "prompts/get"@ { 8 }
    else if starts_with_spec(m, "notifications/"@) { 9 }
    else { 0 }
}

/// The route of a request with a `name` (or `uri`) parameter that is
/// required: a rejection when `params` or the member is missing.
pub open spec fn needs(params: RpcParams, member: Option<String>, missing: Seq<char>, r: RpcRoute) -> bool {
    if !params.present {
        r == (RpcRoute::Reject { code: INVALID_PARAMS, message: r->Reject_message }) && r->Reject_message@ == "Missing params"@
    } else if member is None {
        r == (RpcRoute::Reject { code: INVALID_PARAMS, message: r->Reject_message }) && r->Reject_message@ == missing
    } else {
        !(r is Reject)
    }
}

/// `r` is where a request with version `jsonrpc`, method `method` and
/// parameters `params` goes.
pub open spec fn routes_to(jsonrpc: Seq<char>, method: Seq<char>, params: RpcParams, r: RpcRoute) -> bool {
    if jsonrpc != "2.0"@ {
        r is Reject && r->Reject_code == INVALID_REQUEST && r->Reject_message@ == "Invalid Request"@
    } else {
        let k = method_code(method);
        if k == 1 { r is Initialize }
        else if k == 2 { r is ListTools }
        else if k == 3 {
            if params.present && params.name is Some && !params.has_arguments {
                r is Reject && r->Reject_code == INVALID_PARAMS && r->Reject_message@ == "Missing tool arguments"@
            } else {
                needs(params, params.name, "Missing tool name"@, r)
                && (!(r is Reject) ==> r is CallTool && r->CallTool_name == params.name->Some_0)
            }
        }
        else if k == 4 { r is ListResources }
        else if k == 5 { r is ListResourceTemplates }
        else if k == 6 {
            needs(params, params.uri, "Missing resource URI"@, r)
            && (!(r is Reject) ==> r is ReadResource && r->ReadResource_uri == params.uri->Some_0)
        }
        else if k == 7 { r is ListPrompts }
        else if k == 8 {
            needs(params, params.name, "Missing prompt name"@, r)
            && (!(r is Reject) ==> r is GetPrompt && r->GetPrompt_name == params.name->Some_0)
        }
        else if k == 9 {
            r is Notification && r->Notification_initialized == (method == "notifications/initialized"@)
        }
        else {
            r is Reject && r->Reject_code == METHOD_NOT_FOUND && r->Reject_message@ == "Method not found"@
        }
    }
}

fn reject(code: i32, message: &str) -> (r: RpcRoute)
    ensures
        r is Reject,
        r->Reject_code == code,
        r->Reject_message@ == message@,
{
    RpcRoute::Reject { code, message: String::from_str(message) }
}

/// Routes a request: checks the version, looks the method up, and checks
/// that the parameters it needs are there.
pub fn route_request(jsonrpc: &str, method: &str, params: &RpcParams) -> (r: RpcRoute)
    ensures
        routes_to(jsonrpc@, method@, *params, r),
{
    proof {
        reveal_strlit("2.0");
        reveal_strlit("initialize");
        reveal_strlit("tools/list");
        reveal_strlit("tools/call");
        reveal_strlit("resources/list");
        reveal_strlit("resources/templates/list");
        reveal_strlit("resources/read");
        reveal_strlit("prompts/list");
        reveal_strlit("prompts/get");
        reveal_strlit("notifications/");
        reveal_strlit("notifications/initialized");
    }
    if !str_equals(jsonrpc, "2.0") {
        return reject(INVALID_REQUEST, "Invalid Request");
    }
    if str_equals(method, "initialize") {
        RpcRoute::Initialize
    } else if str_equals(method, "tools/list") {
        RpcRoute::ListTools
    } else if str_equals(method, "tools/call") {
        if !params.present {
            reject(INVALID_PARAMS, "Missing params")
        } else {
            match &params.name {
                Some(n) => if params.has_arguments {
                    RpcRoute::CallTool { name: n.clone() }
                } else {
                    reject(INVALID_PARAMS, "Missing tool arguments")
                },
                None => reject(INVALID_PARAMS, "Missing tool name"),
            }
        }
    } else if str_equals(method, "resources/list") {
        RpcRoute::ListResources
    } else if str_equals(method, "resources/templates/list") {
        RpcRoute::ListResourceTemplates
    } else if str_equals(method, "resources/read") {
        if !params.present {
            reject(INVALID_PARAMS, "Missing params")
        } else {
            match &params.uri {
                Some(u) => RpcRoute::ReadResource { uri: u.clone() },
                None => reject(INVALID_PARAMS, "Missing resource URI"),
            }
        }
    } else if str_equals(method, "prompts/list") {
        RpcRoute::ListPrompts
    } else if str_equals(method, "prompts/get") {
        if !params.present {
            reject(INVALID_PARAMS, "Missing params")
        } else {
            match &params.name {
                Some(n) => RpcRoute::GetPrompt { name: n.clone() },
                None => reject(INVALID_PARAMS, "Missing prompt name"),
            }
        }
    } else if starts_with(method, "notifications/") {
        RpcRoute::Notification { initialized: str_equals(method, "notifications/initialized") }
    } else {
        reject(METHOD_NOT_FOUND, "Method not found")
    }
}

/// The response to a request that a handler served: its value as the
/// result, or its failure's text as an invalid-params error. Every failure
/// of a handler reaches the client with the same code.
pub fn handler_response<V>(id: Option<V>, outcome: Result<V, String>) -> (r: JsonRpcResponse<V>)
    ensures
        well_formed(r),
        r.id == id,
        outcome is Ok ==> r.result == Some(outcome->Ok_0),
        outcome is Err ==> r.error is Some && r.error->Some_0.code == INVALID_PARAMS
            && r.error->Some_0.message == outcome->Err_0,
{
    match outcome {
        Ok(v) => JsonRpcResponse::success(id, v),
        Err(m) => JsonRpcResponse::invalid_params(id, m),
    }
}

/// The response to a request that the router rejected or that needs no
/// handler: the rejection's error, or `null` for a notification. `None`
/// for a route that goes to a handler.
pub fn immediate_response<V>(id: Option<V>, route: RpcRoute, null: V) -> (r: Option<JsonRpcResponse<V>>)
    ensures
        route is Reject ==> r is Some && well_formed(r->Some_0) && r->Some_0.id == id
            && r->Some_0.error is Some
            && r->Some_0.error->Some_0.code == route->Reject_code
            && r->Some_0.error->Some_0.message == route->Reject_message,
        route is Notification ==> r is Some && well_formed(r->Some_0) && r->Some_0.id == id
            && r->Some_0.result == Some(null),
        !(route is Reject) && !(route is Notification) ==> r is None,
{
    match route {
        RpcRoute::Reject { code, message } => Some(JsonRpcResponse::error(id, code, message)),
        RpcRoute::Notification { .. } => Some(JsonRpcResponse::success(id, null)),
        _ => None,
    }
}

/// The marker that `initialize` leaves. One marker serves every HTTP
/// client: a later `initialize` from any client replaces it.
#[derive(Debug, Clone)]
pub struct SessionState {
    pub initialized: bool,
    pub protocol_version: String,
}

/// Records an `initialize`.
pub fn record_initialize(session: &mut Option<SessionState>)
    ensures
        *final(session) is Some,
        (*final(session))->Some_0.initialized,
        (*final(session))->Some_0.protocol_version@ == protocol_version(),
{
    *session = Some(SessionState { initialized: true, protocol_version: String::from_str("2024-11-05") });
}

/// Records a notification: `notifications/initialized` marks an existing
/// session as initialized; any other leaves the marker as it is.
pub fn record_notification(session: &mut Option<SessionState>, route: &RpcRoute)
    ensures
        (route is Notification && route->Notification_initialized && *old(session) is Some) ==> (
            *final(session) is Some && (*final(session))->Some_0.initialized
            && (*final(session))->Some_0.protocol_version == (*old(session))->Some_0.protocol_version),
        !(route is Notification && route->Notification_initialized && *old(session) is Some)
            ==> *final(session) == *old(session),
{
    if let RpcRoute::Notification { initialized: true } = route {
        if let Some(s) = session {
            s.initialized = true;
        }
    }
}

/// A request of any version but `2.0` is refused as an invalid request,
/// whatever its method; a `tools/list` request of version `2.0` goes to the
/// tool listing.
pub proof fn lemma_version_gate(jsonrpc: Seq<char>, method: Seq<char>, params: RpcParams, r: RpcRoute)
    requires
        routes_to(jsonrpc, method, params, r),
    ensures
        jsonrpc != "2.0"@ ==> r is Reject && r->Reject_code == INVALID_REQUEST,
        jsonrpc == "2.0"@ && method == "tools/list"@ ==> r is ListTools,
{
    reveal_strlit("initialize");
    reveal_strlit("tools/list");
    assert("tools/list"@[0] != "initialize"@[0]);
}

/// A method that is neither in the table nor a notification is refused as
/// not found.
pub proof fn lemma_unknown_method(method: Seq<char>, params: RpcParams, r: RpcRoute)
    requires
        routes_to("2.0"@, method, params, r),
        method_code(method) == 0,
    ensures
        r is Reject,
        r->Reject_code == METHOD_NOT_FOUND,
{
}

/// A `tools/call` is never a crash: without `params`, without a tool name
/// or without `arguments` it is refused as invalid params with a message
/// that says what is missing; otherwise it goes to the named tool.
pub proof fn lemma_tool_call_params(params: RpcParams, r: RpcRoute)
    requires
        routes_to("2.0"@, "tools/call"@, params, r),
    ensures
        !params.present ==> r is Reject && r->Reject_code == INVALID_PARAMS
            && r->Reject_message@ == "Missing params"@,
        params.present && params.name is None ==> r is Reject && r->Reject_code == INVALID_PARAMS
            && r->Reject_message@ == "Missing tool name"@,
        params.present && params.name is Some && !params.has_arguments ==> r is Reject
            && r->Reject_code == INVALID_PARAMS && r->Reject_message@ == "Missing tool arguments"@,
        params.present && params.name is Some && params.has_arguments ==> r is CallTool
            && r->CallTool_name == params.name->Some_0,
{
    reveal_strlit("initialize");
    reveal_strlit("tools/list");
    reveal_strlit("tools/call");
    assert("tools/call"@[0] != "initialize"@[0]);
    assert("tools/call"@[6] != "tools/list"@[6]);
    assert(method_code("tools/call"@) == 3);
}

} // verus!
