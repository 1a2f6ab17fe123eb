//! The failures that an operation of this library can report.

use vstd::prelude::*;
use vstd::string::StringExecFns;

verus! {

/// The request that a node was asked to serve.
#[derive(Debug, Clone, Copy, PartialEq, Eq, Structural)]
pub enum RpcCall {
    /// One block, by height or tag, with full transaction detail.
    BlockByNumber,
    /// The current height of the chain.
    BlockNumber,
}

/// Why an operation failed.
#[derive(Debug, Clone, PartialEq, Eq)]
pub enum LakeError {
    /// The endpoint is not a well-formed URL; holds the parser's message.
    InvalidEndpoint(String),
    /// The call failed in transport or protocol; holds the transport's
    /// text, unchanged.
    RpcFailure { call: RpcCall, text: String },
    /// The node answered, and has no block at the requested identifier.
    BlockNotFound,
    /// The columns could not be assembled into a batch; holds the
    /// description of the mismatch.
    EncodingFailure(String),
}

/// What introduces the transport's text in the message of a failed call.
pub open spec fn call_prefix(call: RpcCall) -> Seq<char> {
    match call {
        RpcCall::BlockByNumber => "Failed to get block data: "@,
        RpcCall::BlockNumber => "Failed to get block number: "@,
    }
}

impl LakeError {
    /// The human-readable message of this error.
    pub open spec fn message_text(self) -> Seq<char> {
        match self {
            LakeError::InvalidEndpoint(text) => "Invalid URL: "@ + text@,
            LakeError::RpcFailure { call, text } => call_prefix(call) + text@,
            LakeError::BlockNotFound => "Block not found"@,
            LakeError::EncodingFailure(text) => text@,
        }
    }

    /// True of `InvalidEndpoint` carrying exactly `text`.
    pub open spec fn is_invalid_endpoint(self, text: Seq<char>) -> bool {
        match self {
            LakeError::InvalidEndpoint(t) => t@ == text,
            _ => false,
        }
    }

    /// True of `RpcFailure` raised by `call` and carrying exactly `text`.
    pub open spec fn is_rpc_failure(self, call: RpcCall, text: Seq<char>) -> bool {
        match self {
            LakeError::RpcFailure { call: c, text: t } => c == call && t@ == text,
            _ => false,
        }
    }

    /// Builds the human-readable message: a fixed introduction for the kind
    /// of failure, followed by the text that the error carries.
    pub fn message(&self) -> (r: String)
        ensures
            r@ == self.message_text(),
    {
        match self {
            LakeError::InvalidEndpoint(text) => {
                String::from_str("Invalid URL: ").concat(text.as_str())
            },
            LakeError::RpcFailure { call, text } => {
                let prefix = match call {
                    RpcCall::BlockByNumber => "Failed to get block data: ",
                    RpcCall::BlockNumber => "Failed to get block number: ",
                };
                String::from_str(prefix).concat(text.as_str())
            },
            LakeError::BlockNotFound => String::from_str("Block not found"),
            LakeError::EncodingFailure(text) => text.clone(),
        }
    }
}

} // verus!
