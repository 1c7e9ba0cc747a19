//! RPC error codes and error objects.

use vstd::prelude::*;
use crate::helpers::codes;

verus! {

/// The code of a JSON-RPC error.
#[derive(Clone, Copy, Debug, PartialEq, Eq, Structural)]
pub enum ErrorCode {
    /// Invalid JSON was received by the server.
    ParseError,
    /// The JSON sent is not a valid request object.
    InvalidRequest,
    /// The method does not exist.
    MethodNotFound,
    /// Invalid method parameters.
    InvalidParams,
    /// Internal JSON-RPC error.
    InternalError,
    /// A server error, with a code of the server's own.
    ServerError(i64),
}

impl ErrorCode {
    /// The number that goes over the wire.
    pub open spec fn number(self) -> int {
        match self {
            ErrorCode::ParseError => -32700,
            ErrorCode::InvalidRequest => -32600,
            ErrorCode::MethodNotFound => -32601,
            ErrorCode::InvalidParams => -32602,
            ErrorCode::InternalError => -32603,
            ErrorCode::ServerError(code) => code as int,
        }
    }

    /// The number that goes over the wire.
    pub fn code(&self) -> (r: i64)
        ensures
            r == self.number(),
    {
        match *self {
            ErrorCode::ParseError => -32700,
            ErrorCode::InvalidRequest => -32600,
            ErrorCode::MethodNotFound => -32601,
            ErrorCode::InvalidParams => -32602,
            ErrorCode::InternalError => -32603,
            ErrorCode::ServerError(code) => code,
        }
    }
}

/// A JSON-RPC error object: a code, a message for people, and optional
/// details.
#[derive(Clone, Debug, PartialEq, Eq)]
pub struct RpcError {
    pub code: ErrorCode,
    pub message: String,
    pub data: Option<String>,
}

impl RpcError {
    /// Whether the error has the given code and message and no details.
    pub open spec fn is_plain(self, code: ErrorCode, message: Seq<char>) -> bool {
        self.code == code && self.message@ == message && self.data is None
    }

    /// Whether the error has the given code, message and details.
    pub open spec fn is_detailed(self, code: ErrorCode, message: Seq<char>, data: Seq<char>) -> bool {
        self.code == code && self.message@ == message && self.data is Some && self.data->0@
            == data
    }
}

/// An error of the server's own with a fixed message and no details.
fn server_error(code: i64, message: &str) -> (r: RpcError)
    ensures
        r.is_plain(ErrorCode::ServerError(code), message@),
{
    RpcError { code: ErrorCode::ServerError(code), message: String::from_str(message), data: None }
}

/// The request is not implemented yet.
pub fn unimplemented(details: Option<String>) -> (r: RpcError)
    ensures
        r.code == ErrorCode::ServerError(codes::UNSUPPORTED_REQUEST),
        r.message@
            == "This request is not implemented yet. Please create an issue on Github repo."@,
        r.data == details,
{
    RpcError {
        code: ErrorCode::ServerError(codes::UNSUPPORTED_REQUEST),
        message: String::from_str(
            "This request is not implemented yet. Please create an issue on Github repo.",
        ),
        data: details,
    }
}

/// The request is not supported, for the reason given.
pub fn unsupported(msg: String, details: Option<String>) -> (r: RpcError)
    ensures
        r.code == ErrorCode::ServerError(codes::UNSUPPORTED_REQUEST),
        r.message == msg,
        r.data == details,
{
    RpcError { code: ErrorCode::ServerError(codes::UNSUPPORTED_REQUEST), message: msg, data: details }
}

/// No request of that kind is known.
pub fn request_not_found() -> (r: RpcError)
    ensures
        r.is_plain(ErrorCode::ServerError(codes::REQUEST_NOT_FOUND), "Request not found."@),
{
    server_error(codes::REQUEST_NOT_FOUND, "Request not found.")
}

/// The request was rejected.
pub fn request_rejected() -> (r: RpcError)
    ensures
        r.is_plain(ErrorCode::ServerError(codes::REQUEST_REJECTED), "Request has been rejected."@),
{
    server_error(codes::REQUEST_REJECTED, "Request has been rejected.")
}

/// The request was rejected because the queue is full.
pub fn request_rejected_limit() -> (r: RpcError)
    ensures
        r.is_plain(
            ErrorCode::ServerError(codes::REQUEST_REJECTED_LIMIT),
            "Request has been rejected because of queue limit."@,
        ),
{
    server_error(
        codes::REQUEST_REJECTED_LIMIT,
        "Request has been rejected because of queue limit.",
    )
}

/// A logic error in the code. Not for a request that fails because of its
/// parameters or of the node's state. `data` is the faulty value as text.
pub fn internal(error: &str, data: String) -> (r: RpcError)
    ensures
        r.code == ErrorCode::InternalError,
        r.message@ == "Internal error occurred: "@ + error@,
        r.data == Some(data),
{
    RpcError {
        code: ErrorCode::InternalError,
        message: String::from_str("Internal error occurred: ").concat(error),
        data: Some(data),
    }
}

/// A parameter could not be read. `details` says why, as text.
pub fn invalid_params(param: &str, details: String) -> (r: RpcError)
    ensures
        r.code == ErrorCode::InvalidParams,
        r.message@ == "Couldn't parse parameters: "@ + param@,
        r.data == Some(details),
{
    RpcError {
        code: ErrorCode::InvalidParams,
        message: String::from_str("Couldn't parse parameters: ").concat(param),
        data: Some(details),
    }
}

/// Executing a transaction failed. `data` says how, as text.
pub fn execution(data: String) -> (r: RpcError)
    ensures
        r.code == ErrorCode::ServerError(codes::EXECUTION_ERROR),
        r.message@ == "Transaction execution error."@,
        r.data == Some(data),
{
    RpcError {
        code: ErrorCode::ServerError(codes::EXECUTION_ERROR),
        message: String::from_str("Transaction execution error."),
        data: Some(data),
    }
}

/// The state that the request needs was pruned.
pub fn state_pruned() -> (r: RpcError)
    ensures
        r.is_plain(
            ErrorCode::ServerError(codes::UNSUPPORTED_REQUEST),
            "This request is not supported because your node is running with state pruning. Run with --pruning=archive."@,
        ),
{
    server_error(
        codes::UNSUPPORTED_REQUEST,
        "This request is not supported because your node is running with state pruning. Run with --pruning=archive.",
    )
}

/// The state is corrupt. The details are an empty string in quotes.
pub fn state_corrupt() -> (r: RpcError)
    ensures
        r.is_detailed(
            ErrorCode::InternalError,
            "Internal error occurred: "@ + "State corrupt"@,
            "\"\""@,
        ),
{
    internal("State corrupt", String::from_str("\"\""))
}

/// Execution ended in an exception. `data` is the exception as text.
pub fn exceptional(data: String) -> (r: RpcError)
    ensures
        r.code == ErrorCode::ServerError(codes::EXCEPTION_ERROR),
        r.message@ == "The execution failed due to an exception."@,
        r.data == Some(data),
{
    RpcError {
        code: ErrorCode::ServerError(codes::EXCEPTION_ERROR),
        message: String::from_str("The execution failed due to an exception."),
        data: Some(data),
    }
}

/// No candidate block has been built yet.
pub fn no_work() -> (r: RpcError)
    ensures
        r.is_plain(ErrorCode::ServerError(codes::NO_WORK), "Still syncing."@),
{
    server_error(codes::NO_WORK, "Still syncing.")
}

/// The work has not changed since it was last asked for.
pub fn no_new_work() -> (r: RpcError)
    ensures
        r.is_plain(ErrorCode::ServerError(codes::NO_NEW_WORK), "Work has not changed."@),
{
    server_error(codes::NO_NEW_WORK, "Work has not changed.")
}

/// No author is configured.
pub fn no_author() -> (r: RpcError)
    ensures
        r.is_plain(
            ErrorCode::ServerError(codes::NO_AUTHOR),
            "Author not configured. Run Parity with --author to configure."@,
        ),
{
    server_error(codes::NO_AUTHOR, "Author not configured. Run Parity with --author to configure.")
}

/// The engine needs no external work.
pub fn no_work_required() -> (r: RpcError)
    ensures
        r.is_plain(
            ErrorCode::ServerError(codes::NO_WORK_REQUIRED),
            "External work is only required for Proof of Work engines."@,
        ),
{
    server_error(
        codes::NO_WORK_REQUIRED,
        "External work is only required for Proof of Work engines.",
    )
}

/// The work cannot be submitted.
pub fn cannot_submit_work() -> (r: RpcError)
    ensures
        r.is_plain(ErrorCode::ServerError(codes::CANNOT_SUBMIT_WORK), "Cannot submit work."@),
{
    server_error(codes::CANNOT_SUBMIT_WORK, "Cannot submit work.")
}

/// The message that says why a block is unavailable.
pub open spec fn unavailable_block_message(no_ancient_block: bool, by_hash: bool) -> Seq<char> {
    if no_ancient_block {
        "Looks like you disabled ancient block download, unfortunately the information you're trying to fetch doesn't exist in the db and is probably in the ancient blocks."@
    } else if by_hash {
        "Block information is incomplete while ancient block sync is still in progress, before it's finished we can't determine the existence of requested item."@
    } else {
        "Requested block number is in a range that is not available yet, because the ancient block sync is still in progress."@
    }
}

/// A block is unavailable: because ancient blocks are not downloaded, or,
/// while they still are being synced, because it was asked for by hash or by
/// a number that is not there yet.
pub fn unavailable_block(no_ancient_block: bool, by_hash: bool) -> (r: RpcError)
    ensures
        r.is_plain(
            ErrorCode::ServerError(codes::UNSUPPORTED_REQUEST),
            unavailable_block_message(no_ancient_block, by_hash),
        ),
{
    if no_ancient_block {
        server_error(
            codes::UNSUPPORTED_REQUEST,
            "Looks like you disabled ancient block download, unfortunately the information you're trying to fetch doesn't exist in the db and is probably in the ancient blocks.",
        )
    } else if by_hash {
        server_error(
            codes::UNSUPPORTED_REQUEST,
            "Block information is incomplete while ancient block sync is still in progress, before it's finished we can't determine the existence of requested item.",
        )
    } else {
        server_error(
            codes::UNSUPPORTED_REQUEST,
            "Requested block number is in a range that is not available yet, because the ancient block sync is still in progress.",
        )
    }
}

/// The input is invalid. Shares its code with unsupported requests.
pub fn invalid_input() -> (r: RpcError)
    ensures
        r.is_plain(ErrorCode::ServerError(codes::UNSUPPORTED_REQUEST), "Invalid input"@),
{
    server_error(codes::UNSUPPORTED_REQUEST, "Invalid input")
}

} // verus!
