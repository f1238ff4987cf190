use vstd::prelude::*;

use crate::node::Code;

verus! {

/// serde_json's JSON value: parameters and results are carried through
/// unread.
#[verifier::external_type_specification]
#[verifier::external_body]
pub struct ExValue(serde_json::Value);

/// The id of every request; one request goes over each connection.
pub const REQUEST_ID: i64 = 0;

/// The protocol version that requests carry and replies must carry if any.
pub open spec fn version_word() -> Seq<char> {
    seq!['2', '.', '0']
}

/// A JSON-RPC request.
pub struct Request {
    /// The name of the remote call.
    pub method: String,
    /// Its parameters, if any.
    pub params: Option<serde_json::Value>,
    /// The request's id, which the reply must echo.
    pub id: i64,
    /// The protocol version.
    pub jsonrpc: Option<String>,
}

/// A JSON-RPC error object.
pub struct RpcError {
    pub code: i32,
    pub message: String,
    pub data: Option<serde_json::Value>,
}

/// A JSON-RPC reply. `id` is the reply's id when it is an integer that fits
/// `i64`, and `None` for any other id.
pub struct Response {
    pub result: Option<serde_json::Value>,
    pub error: Option<RpcError>,
    pub id: Option<i64>,
    pub jsonrpc: Option<String>,
}

/// Kinds of error that the storage engine reports in a reply.
#[derive(PartialEq, Eq, Clone, Copy, Debug)]
pub enum RpcCode {
    ParseError,
    InvalidRequest,
    MethodNotFound,
    InvalidParams,
    InternalError,
    NotFound,
    AlreadyExists,
}

/// Kinds of I/O failure that the transport tells apart.
#[derive(PartialEq, Eq, Clone, Copy, Debug)]
pub enum IoKind {
    NotFound,
    PermissionDenied,
    Other,
}

/// Failures of a remote call.
#[derive(PartialEq, Eq, Clone, Debug)]
pub enum Error {
    /// The socket could not be reached.
    ConnectError { sock: String, reason: String },
    /// Any other I/O failure.
    IoError { reason: String },
    /// The reply is not JSON of the expected shape.
    ParseError { reason: String },
    InvalidVersion,
    InvalidReplyId,
    /// The engine answered with an error object.
    RpcError { code: RpcCode, msg: String },
}

/// The status code under which a transport error reaches the orchestrator.
pub open spec fn error_code(e: Error) -> Code {
    match e {
        Error::RpcError { code: RpcCode::NotFound, .. } => Code::NotFound,
        Error::RpcError { code: RpcCode::AlreadyExists, .. } => Code::AlreadyExists,
        _ => Code::Internal,
    }
}

impl Error {
    pub fn code(&self) -> (r: Code)
        ensures
            r == error_code(*self),
    {
        match self {
            Error::RpcError { code: RpcCode::NotFound, .. } => Code::NotFound,
            Error::RpcError { code: RpcCode::AlreadyExists, .. } => Code::AlreadyExists,
            _ => Code::Internal,
        }
    }
}

impl Request {
    /// A request for `method`, with the fixed id and version.
    pub fn new(method: &str, params: Option<serde_json::Value>) -> (r: Request)
        ensures
            r.method@ == method@,
            r.params == params,
            r.id == REQUEST_ID,
            r.jsonrpc is Some && r.jsonrpc->Some_0@ == version_word(),
    {
        proof {
            reveal_strlit("2.0");
        }
        Request {
            method: String::from_str(method),
            params,
            id: REQUEST_ID,
            jsonrpc: Some(String::from_str("2.0")),
        }
    }
}

/// The failure that an I/O error on socket `sock` becomes.
pub open spec fn io_error(kind: IoKind, sock: String, reason: String) -> Error {
    match kind {
        IoKind::NotFound | IoKind::PermissionDenied => Error::ConnectError { sock, reason },
        IoKind::Other => Error::IoError { reason },
    }
}

/// Classify an I/O failure of a call on socket `sock`.
pub fn io_failure(kind: IoKind, sock: String, reason: String) -> (r: Error)
    ensures
        r == io_error(kind, sock, reason),
{
    match kind {
        IoKind::NotFound | IoKind::PermissionDenied => Error::ConnectError { sock, reason },
        IoKind::Other => Error::IoError { reason },
    }
}

/// The kind of an error code in a reply, given the system's numbers for a
/// missing entry (`enoent`) and an existing one (`eexist`).
pub open spec fn rpc_code_of(code: i32, enoent: i32, eexist: i32) -> RpcCode {
    if code == -32700 {
        RpcCode::ParseError
    } else if code == -32600 {
        RpcCode::InvalidRequest
    } else if code == -32601 {
        RpcCode::MethodNotFound
    } else if code == -32602 {
        RpcCode::InvalidParams
    } else if code == -32603 {
        RpcCode::InternalError
    } else if code == -enoent {
        RpcCode::NotFound
    } else if code == -eexist {
        RpcCode::AlreadyExists
    } else {
        RpcCode::InternalError
    }
}

/// Map an error code of a reply to its kind.
pub fn map_error_code(code: i32, enoent: i32, eexist: i32) -> (r: RpcCode)
    requires
        enoent > 0,
        eexist > 0,
    ensures
        r == rpc_code_of(code, enoent, eexist),
{
    match code {
        -32700 => RpcCode::ParseError,
        -32600 => RpcCode::InvalidRequest,
        -32601 => RpcCode::MethodNotFound,
        -32602 => RpcCode::InvalidParams,
        -32603 => RpcCode::InternalError,
        val => {
            if val == -enoent {
                RpcCode::NotFound
            } else if val == -eexist {
                RpcCode::AlreadyExists
            } else {
                RpcCode::InternalError
            }
        },
    }
}

/// Relies on nix's `Errno::ENOENT`: the system's (positive) error number for
/// "no such file or directory".
#[verifier::external_body]
fn errno_no_entry() -> (r: i32)
    ensures
        r > 0,
{
    nix::errno::Errno::ENOENT as i32
}

/// Relies on nix's `Errno::EEXIST`: the system's (positive) error number for
/// "file exists".
#[verifier::external_body]
fn errno_exists() -> (r: i32)
    ensures
        r > 0,
{
    nix::errno::Errno::EEXIST as i32
}

/// Map an error code of a reply to its kind, with this system's error numbers.
pub fn rpc_code(code: i32) -> (r: RpcCode)
    ensures
        exists|n: i32, x: i32| n > 0 && x > 0 && r == rpc_code_of(code, n, x),
{
    let n = errno_no_entry();
    let x = errno_exists();
    map_error_code(code, n, x)
}

/// What a parsed reply yields: the result to decode (`None` when the reply has
/// none), or the failure it carries.
pub open spec fn reply_outcome(reply: Response, enoent: i32, eexist: i32) -> Result<
    Option<serde_json::Value>,
    Error,
> {
    if reply.jsonrpc is Some && reply.jsonrpc->Some_0@ != version_word() {
        Err(Error::InvalidVersion)
    } else if reply.id != Some(REQUEST_ID) {
        Err(Error::InvalidReplyId)
    } else if reply.error is Some {
        let e = reply.error->Some_0;
        Err(Error::RpcError { code: rpc_code_of(e.code, enoent, eexist), msg: e.message })
    } else {
        Ok(reply.result)
    }
}

/// Check a parsed reply against its request, given the system's error
/// numbers for a missing and an existing entry.
pub fn check_reply_with(reply: Response, enoent: i32, eexist: i32) -> (r: Result<
    Option<serde_json::Value>,
    Error,
>)
    requires
        enoent > 0,
        eexist > 0,
    ensures
        r == reply_outcome(reply, enoent, eexist),
{
    proof {
        reveal_strlit("2.0");
    }
    let two = String::from_str("2.0");
    assert(two@ == version_word());
    if let Some(vers) = &reply.jsonrpc {
        if !(*vers == two) {
            return Err(Error::InvalidVersion);
        }
    }
    match reply.id {
        Some(id) => {
            if id != REQUEST_ID {
                assert(reply.id != Some(REQUEST_ID));
                return Err(Error::InvalidReplyId);
            }
        },
        None => {
            return Err(Error::InvalidReplyId);
        },
    }
    match reply.error {
        Some(e) => {
            let code = map_error_code(e.code, enoent, eexist);
            Err(Error::RpcError { code, msg: e.message })
        },
        None => Ok(reply.result),
    }
}

/// Check a parsed reply against its request.
pub fn check_reply(reply: Response) -> (r: Result<Option<serde_json::Value>, Error>)
    ensures
        exists|n: i32, x: i32| n > 0 && x > 0 && r == reply_outcome(reply, n, x),
{
    let n = errno_no_entry();
    let x = errno_exists();
    check_reply_with(reply, n, x)
}

} // verus!
