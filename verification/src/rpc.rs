//! The client adapter's decisions: what to ask a node, and what its reply
//! means. Sending the request is the caller's part.

use vstd::prelude::*;
use crate::endpoint::{parse_endpoint, parsed_text, url_parse_error, url_text, well_formed};
use crate::error::{LakeError, RpcCall};

verus! {

/// Which block is addressed: a height, or the newest block of the chain.
#[derive(Debug, Clone, Copy, PartialEq, Eq, Structural)]
pub enum BlockId {
    Number(u64),
    Latest,
}

/// One block as a node reports it. A pending block has no height and no
/// hash yet; every block has a parent hash.
#[derive(Debug, Clone, PartialEq, Eq)]
pub struct BlockRecord {
    pub number: Option<u64>,
    pub hash: Option<String>,
    pub parent_hash: String,
}

/// A "get block by number" request, ready to be sent.
#[derive(Debug)]
pub struct BlockRequest {
    pub url: url::Url,
    pub block: BlockId,
    pub full_transactions: bool,
}

/// A "get block number" request, ready to be sent.
#[derive(Debug)]
pub struct HeightRequest {
    pub url: url::Url,
}

/// The error that refuses `address`, if it is not a well-formed URL.
pub open spec fn refused_by(address: Seq<char>, e: LakeError) -> bool {
    match url_parse_error(address) {
        Some(text) => e.is_invalid_endpoint(text),
        None => false,
    }
}

/// What a block reply means: the record, `BlockNotFound` where the node
/// has no such block, `RpcFailure` with the transport's text where the
/// call failed.
pub open spec fn block_outcome(reply: Result<Option<BlockRecord>, String>) -> Result<
    BlockRecord,
    LakeError,
> {
    match reply {
        Ok(Some(record)) => Ok(record),
        Ok(None) => Err(LakeError::BlockNotFound),
        Err(text) => Err(LakeError::RpcFailure { call: RpcCall::BlockByNumber, text }),
    }
}

/// What a height reply means: the height, or `RpcFailure` with the
/// transport's text.
pub open spec fn height_outcome(reply: Result<u64, String>) -> Result<u64, LakeError> {
    match reply {
        Ok(height) => Ok(height),
        Err(text) => Err(LakeError::RpcFailure { call: RpcCall::BlockNumber, text }),
    }
}

/// Prepares the request for one block, with full transaction detail,
/// addressed to the URL that the address parses to.
///
/// An address that is not a well-formed URL yields `InvalidEndpoint` and no
/// request, so nothing is ever sent to it.
pub fn fetch_block(address: &str, block: BlockId) -> (r: Result<BlockRequest, LakeError>)
    ensures
        r is Ok <==> well_formed(address@),
        r matches Ok(request) ==> request.block == block && request.full_transactions,
        r matches Ok(request) ==> url_text(request.url) == parsed_text(address@),
        r matches Err(e) ==> refused_by(address@, e),
{
    match parse_endpoint(address) {
        Ok(url) => Ok(BlockRequest { url, block, full_transactions: true }),
        Err(e) => Err(e),
    }
}

/// Reads the reply to a block request: `Ok(Some(..))` is the block,
/// `Ok(None)` says that the node has no such block, `Err(..)` holds the
/// transport's error text.
pub fn fetch_block_reply(reply: Result<Option<BlockRecord>, String>) -> (r: Result<
    BlockRecord,
    LakeError,
>)
    ensures
        r == block_outcome(reply),
{
    match reply {
        Ok(Some(record)) => Ok(record),
        Ok(None) => Err(LakeError::BlockNotFound),
        Err(text) => Err(LakeError::RpcFailure { call: RpcCall::BlockByNumber, text }),
    }
}

/// Prepares the request for the chain's current height, addressed to the
/// URL that the address parses to.
///
/// An address that is not a well-formed URL yields `InvalidEndpoint` and no
/// request, so nothing is ever sent to it.
pub fn get_latest_block(address: &str) -> (r: Result<HeightRequest, LakeError>)
    ensures
        r is Ok <==> well_formed(address@),
        r matches Ok(request) ==> url_text(request.url) == parsed_text(address@),
        r matches Err(e) ==> refused_by(address@, e),
{
    match parse_endpoint(address) {
        Ok(url) => Ok(HeightRequest { url }),
        Err(e) => Err(e),
    }
}

/// Reads the reply to a height request: the height, or the transport's
/// error text. A node that answers always has a height.
pub fn get_latest_block_reply(reply: Result<u64, String>) -> (r: Result<u64, LakeError>)
    ensures
        r == height_outcome(reply),
{
    match reply {
        Ok(height) => Ok(height),
        Err(text) => Err(LakeError::RpcFailure { call: RpcCall::BlockNumber, text }),
    }
}

/// Asking twice gives the same answer: two replies that report the same
/// height are read as that height, both times.
pub proof fn same_height_same_answer(first: Result<u64, String>, second: Result<u64, String>)
    requires
        first is Ok,
        second is Ok,
        first->Ok_0 == second->Ok_0,
    ensures
        height_outcome(first) == height_outcome(second),
        height_outcome(first) == Ok::<u64, LakeError>(first->Ok_0),
{
}

/// A failed call is never read as a block or a height: whatever text the
/// transport gives, the outcome is `RpcFailure` carrying that text.
pub proof fn failed_call_is_rpc_failure(text: String)
    ensures
        block_outcome(Err(text)) is Err,
        block_outcome(Err(text))->Err_0.is_rpc_failure(RpcCall::BlockByNumber, text@),
        height_outcome(Err(text)) is Err,
        height_outcome(Err(text))->Err_0.is_rpc_failure(RpcCall::BlockNumber, text@),
{
}

} // verus!
