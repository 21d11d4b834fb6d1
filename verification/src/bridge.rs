//! Decisions of the local JSON-RPC bridge for the Web UI: which route an
//! HTTP request takes, which handler a JSON-RPC call goes to, and the error
//! objects it answers with.
use vstd::prelude::*;
use vstd::string::*;
use crate::error::{error_text, ErrorView, PrismError};
use crate::network::{
    ascii_lower, is_ascii_text, lowercase, resolve_network, resolve_spec, NetworkConfig,
    NetworkConfigView,
};
use crate::rpc::JSON_RPC_VERSION;
use crate::text::{push_str, str_eq};

verus! {

/// Where an HTTP request goes.
#[derive(Debug, Clone, Copy, PartialEq, Eq)]
pub enum Route {
    /// `GET /health`: the status document.
    Health,
    /// `OPTIONS /rpc` or `OPTIONS /health`: an empty CORS preflight answer.
    Preflight,
    /// `POST /rpc`: a JSON-RPC call.
    Rpc,
    /// Anything else: 404.
    NotFound,
}

pub open spec fn route_spec(method: Seq<char>, path: Seq<char>) -> Route {
    if method == "GET"@ && path == "/health"@ {
        Route::Health
    } else if method == "OPTIONS"@ && (path == "/rpc"@ || path == "/health"@) {
        Route::Preflight
    } else if method == "POST"@ && path == "/rpc"@ {
        Route::Rpc
    } else {
        Route::NotFound
    }
}

/// The route of an HTTP request.
pub fn route(method: &str, path: &str) -> (r: Route)
    ensures
        r == route_spec(method@, path@),
{
    if str_eq(method, "GET") && str_eq(path, "/health") {
        Route::Health
    } else if str_eq(method, "OPTIONS") && (str_eq(path, "/rpc") || str_eq(path, "/health")) {
        Route::Preflight
    } else if str_eq(method, "POST") && str_eq(path, "/rpc") {
        Route::Rpc
    } else {
        Route::NotFound
    }
}

/// The HTTP status each route answers with: 200 for the status document and
/// for JSON-RPC calls (errors travel inside the JSON-RPC answer), 204 for a
/// preflight, 404 for anything else.
pub open spec fn route_status_spec(r: Route) -> u16 {
    match r {
        Route::Health => 200,
        Route::Preflight => 204,
        Route::Rpc => 200,
        Route::NotFound => 404,
    }
}

/// The HTTP status a route answers with.
pub fn route_status(r: Route) -> (status: u16)
    ensures
        status == route_status_spec(r),
{
    match r {
        Route::Health => 200,
        Route::Preflight => 204,
        Route::Rpc => 200,
        Route::NotFound => 404,
    }
}

/// The handler a JSON-RPC call goes to.
#[derive(Debug, Clone, Copy, PartialEq, Eq)]
pub enum Dispatch {
    /// The call does not speak JSON-RPC 2.0.
    InvalidRequest,
    Health,
    GetTransaction,
    Decode,
    Inspect,
    Trace,
    Profile,
    Diff,
    /// No such method.
    MethodNotFound,
}

pub open spec fn dispatch_spec(jsonrpc: Seq<char>, method: Seq<char>) -> Dispatch {
    if jsonrpc != JSON_RPC_VERSION@ {
        Dispatch::InvalidRequest
    } else if method == "prism.health"@ {
        Dispatch::Health
    } else if method == "prism.transaction.get"@ {
        Dispatch::GetTransaction
    } else if method == "prism.decode"@ {
        Dispatch::Decode
    } else if method == "prism.inspect"@ {
        Dispatch::Inspect
    } else if method == "prism.trace"@ {
        Dispatch::Trace
    } else if method == "prism.profile"@ {
        Dispatch::Profile
    } else if method == "prism.diff"@ {
        Dispatch::Diff
    } else {
        Dispatch::MethodNotFound
    }
}

/// Selects the handler of a call: the version is checked first, then the
/// method name.
pub fn dispatch(jsonrpc: &str, method: &str) -> (d: Dispatch)
    ensures
        d == dispatch_spec(jsonrpc@, method@),
{
    if !str_eq(jsonrpc, JSON_RPC_VERSION) {
        Dispatch::InvalidRequest
    } else if str_eq(method, "prism.health") {
        Dispatch::Health
    } else if str_eq(method, "prism.transaction.get") {
        Dispatch::GetTransaction
    } else if str_eq(method, "prism.decode") {
        Dispatch::Decode
    } else if str_eq(method, "prism.inspect") {
        Dispatch::Inspect
    } else if str_eq(method, "prism.trace") {
        Dispatch::Trace
    } else if str_eq(method, "prism.profile") {
        Dispatch::Profile
    } else if str_eq(method, "prism.diff") {
        Dispatch::Diff
    } else {
        Dispatch::MethodNotFound
    }
}

/// A JSON-RPC error object (its `data` member is added by the caller).
#[derive(Debug)]
pub struct RpcErrorObject {
    pub code: i64,
    pub message: String,
}

pub const PARSE_ERROR: i64 = -32700;

pub const INVALID_REQUEST: i64 = -32600;

pub const METHOD_NOT_FOUND: i64 = -32601;

pub const INVALID_PARAMS: i64 = -32602;

pub const TRANSACTION_NOT_FOUND: i64 = -32004;

pub const CONFIG_ERROR: i64 = -32010;

pub const UPSTREAM_RPC_ERROR: i64 = -32020;

pub const SERVER_ERROR: i64 = -32000;

impl RpcErrorObject {
    /// The body of a request that is not valid JSON.
    pub fn parse_error() -> (e: Self)
        ensures
            e.code == PARSE_ERROR,
            e.message@ == "Parse error"@,
    {
        RpcErrorObject { code: PARSE_ERROR, message: String::from_str("Parse error") }
    }

    /// A call that does not speak JSON-RPC 2.0.
    pub fn invalid_request() -> (e: Self)
        ensures
            e.code == INVALID_REQUEST,
            e.message@ == "Invalid Request"@,
    {
        RpcErrorObject { code: INVALID_REQUEST, message: String::from_str("Invalid Request") }
    }

    /// Parameters that do not fit the method.
    pub fn invalid_params(message: String) -> (e: Self)
        ensures
            e.code == INVALID_PARAMS,
            e.message@ == message@,
    {
        RpcErrorObject { code: INVALID_PARAMS, message }
    }

    /// A method the bridge does not know.
    pub fn method_not_found(method: &str) -> (e: Self)
        ensures
            e.code == METHOD_NOT_FOUND,
            e.message@ == "Method not found: "@ + method@,
    {
        let mut message = String::from_str("Method not found: ");
        push_str(&mut message, method);
        RpcErrorObject { code: METHOD_NOT_FOUND, message }
    }
}

/// A JSON-RPC answer: the version, the call's id echoed, and exactly one of
/// a result or an error object with its optional data.
#[derive(Debug)]
pub struct RpcAnswer<I, R, D> {
    pub jsonrpc: &'static str,
    pub id: I,
    pub result: Option<R>,
    pub error: Option<(RpcErrorObject, Option<D>)>,
}

/// The answer to a call with id `id` and the given outcome.
pub fn answer<I, R, D>(id: I, outcome: Result<R, (RpcErrorObject, Option<D>)>) -> (a: RpcAnswer<
    I,
    R,
    D,
>)
    ensures
        a.jsonrpc@ == JSON_RPC_VERSION@,
        a.id == id,
        match outcome {
            Ok(r) => a.result == Some(r) && a.error is None,
            Err(e) => a.result is None && a.error == Some(e),
        },
{
    match outcome {
        Ok(r) => RpcAnswer { jsonrpc: JSON_RPC_VERSION, id, result: Some(r), error: None },
        Err(e) => RpcAnswer { jsonrpc: JSON_RPC_VERSION, id, result: None, error: Some(e) },
    }
}

/// The code and message the bridge answers a library error with.
pub open spec fn mapped_error(e: ErrorView) -> (i64, Seq<char>) {
    match e {
        ErrorView::TransactionNotFound(hash) => (
            TRANSACTION_NOT_FOUND,
            "Transaction not found: "@ + hash,
        ),
        ErrorView::Config(m) => (CONFIG_ERROR, m),
        ErrorView::Rpc(m) => (UPSTREAM_RPC_ERROR, m),
        other => (SERVER_ERROR, error_text(other)),
    }
}

/// Maps a library error to the error object the bridge answers with.
pub fn map_prism_error(error: PrismError) -> (e: RpcErrorObject)
    ensures
        (e.code, e.message@) == mapped_error(error@),
{
    match error {
        PrismError::TransactionNotFound(hash) => {
            let mut message = String::from_str("Transaction not found: ");
            push_str(&mut message, hash.as_str());
            RpcErrorObject { code: TRANSACTION_NOT_FOUND, message }
        },
        PrismError::ConfigError(message) => RpcErrorObject { code: CONFIG_ERROR, message },
        PrismError::RpcError(message) => RpcErrorObject { code: UPSTREAM_RPC_ERROR, message },
        other => RpcErrorObject { code: SERVER_ERROR, message: other.describe() },
    }
}

/// What `required_string` gives for the string found under `field`, if any:
/// a non-empty string, else an invalid-params error naming the field.
pub open spec fn required_string_spec(found: Option<Seq<char>>, field: Seq<char>) -> Result<
    Seq<char>,
    (i64, Seq<char>),
> {
    match found {
        Some(v) => if v.len() > 0 {
            Ok(v)
        } else {
            Err((INVALID_PARAMS, "missing required string field `"@ + field + "`"@))
        },
        None => Err((INVALID_PARAMS, "missing required string field `"@ + field + "`"@)),
    }
}

/// Requires a non-empty string parameter; `found` is the string value the
/// parameters hold under `field`, if they hold one.
pub fn required_string(found: Option<&str>, field: &str) -> (r: Result<String, RpcErrorObject>)
    ensures
        match r {
            Ok(s) => required_string_spec(
                match found {
                    Some(v) => Some(v@),
                    None => None,
                },
                field@,
            ) == Ok::<_, (i64, Seq<char>)>(s@),
            Err(e) => required_string_spec(
                match found {
                    Some(v) => Some(v@),
                    None => None,
                },
                field@,
            ) == Err::<Seq<char>, _>((e.code, e.message@)),
        },
{
    match found {
        Some(v) => {
            if !v.is_empty() {
                return Ok(String::from_str(v));
            }
        },
        None => {},
    }
    let mut message = String::from_str("missing required string field `");
    push_str(&mut message, field);
    push_str(&mut message, "`");
    Err(RpcErrorObject::invalid_params(message))
}

/// The network a call runs against: the one it names, resolved, or the
/// bridge's default.
pub fn bridge_network(requested: Option<&str>, default_network: &NetworkConfig) -> (c: NetworkConfig)
    ensures
        c@ == match requested {
            Some(name) => resolve_spec(lowercase(name@)),
            None => default_network@,
        },
        match requested {
            Some(name) => is_ascii_text(name@) ==> c@ == resolve_spec(
                name@.map_values(|ch: char| ascii_lower(ch)),
            ),
            None => true,
        },
{
    match requested {
        Some(name) => resolve_network(name),
        None => default_network.duplicate(),
    }
}

/// A call that does not speak JSON-RPC 2.0 is refused whatever its method.
pub proof fn law_version_checked_first(jsonrpc: Seq<char>, method: Seq<char>)
    requires
        jsonrpc != JSON_RPC_VERSION@,
    ensures
        dispatch_spec(jsonrpc, method) == Dispatch::InvalidRequest,
{
}

/// A JSON-RPC 2.0 call to a method outside the bridge's list is answered
/// with "method not found".
pub proof fn law_unknown_method_not_found(method: Seq<char>)
    requires
        method != "prism.health"@,
        method != "prism.transaction.get"@,
        method != "prism.decode"@,
        method != "prism.inspect"@,
        method != "prism.trace"@,
        method != "prism.profile"@,
        method != "prism.diff"@,
    ensures
        dispatch_spec(JSON_RPC_VERSION@, method) == Dispatch::MethodNotFound,
{
}

} // verus!
