//! JSON-RPC 2.0 messages exchanged between agents.
use vstd::prelude::*;
use crate::json::Json;

verus! {

/// The error part of a response.
pub struct RpcError {
    pub code: i32,
    pub message: String,
}

/// A request: a method, its parameters and an identifier.
pub struct RpcRequest {
    pub jsonrpc: String,
    pub method: String,
    pub params: Json,
    pub id: u64,
}

/// A response: a result or an error, for the request of the same identifier.
pub struct RpcResponse {
    pub jsonrpc: String,
    pub result: Option<Json>,
    pub error: Option<RpcError>,
    pub id: u64,
}

impl RpcRequest {
    /// A version 2.0 request.
    pub fn new(method: &str, params: Json, id: u64) -> (r: Self)
        ensures
            r.jsonrpc@ == "2.0"@,
            r.method@ == method@,
            r.params == params,
            r.id == id,
    {
        RpcRequest {
            jsonrpc: String::from_str("2.0"),
            method: String::from_str(method),
            params,
            id,
        }
    }
}

impl RpcResponse {
    /// A version 2.0 response that carries `result`.
    pub fn success(id: u64, result: Json) -> (r: Self)
        ensures
            r.jsonrpc@ == "2.0"@,
            r.result == Some(result),
            r.error is None,
            r.id == id,
    {
        RpcResponse { jsonrpc: String::from_str("2.0"), result: Some(result), error: None, id }
    }

    /// A version 2.0 response that carries the error `code` with `message`.
    pub fn error(id: u64, code: i32, message: &str) -> (r: Self)
        ensures
            r.jsonrpc@ == "2.0"@,
            r.result is None,
            r.error matches Some(e) && e.code == code && e.message@ == message@,
            r.id == id,
    {
        RpcResponse {
            jsonrpc: String::from_str("2.0"),
            result: None,
            error: Some(RpcError { code, message: String::from_str(message) }),
            id,
        }
    }
}

} // verus!
