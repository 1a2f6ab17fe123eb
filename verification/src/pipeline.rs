//! Fetching one block as a columnar batch: the request to send, and the
//! batch that its reply yields.

use vstd::prelude::*;
use crate::columns::{batch_debug, batch_debug_text, ColumnarBatch};
use crate::encoder::{block_fields, encodable, encode, holds_block, row_columns};
use crate::endpoint::{parsed_text, url_text, well_formed};
use crate::error::LakeError;
use crate::rpc::{
    block_outcome, fetch_block, fetch_block_reply, refused_by, BlockId, BlockRecord, BlockRequest,
};

verus! {

/// One block, encoded: the sealed batch and its debug rendering.
#[derive(Debug)]
pub struct EncodedBlock {
    pub batch: ColumnarBatch,
    pub text: String,
}

/// The debug rendering of the encoding of a record.
pub open spec fn block_text(record: BlockRecord) -> Seq<char> {
    batch_debug(block_fields(), row_columns(record))
}

/// True where every text of the block that the reply holds, if it holds
/// one, fits a text column.
pub open spec fn reply_encodable(reply: Result<Option<BlockRecord>, String>) -> bool {
    match reply {
        Ok(Some(record)) => encodable(record),
        _ => true,
    }
}

/// What a block reply yields: the encoding of the block that the reply
/// holds, or the error that the reply means. No error comes with a batch.
pub open spec fn arrow_outcome(
    reply: Result<Option<BlockRecord>, String>,
    r: Result<EncodedBlock, LakeError>,
) -> bool {
    match block_outcome(reply) {
        Ok(record) => r is Ok && holds_block(r->Ok_0.batch, record) && r->Ok_0.text@
            == block_text(record),
        Err(e) => r is Err && r->Err_0 == e,
    }
}

/// Prepares the request for the block at height `block_number`, with full
/// transaction detail, addressed to the URL that the address parses to.
///
/// An address that is not a well-formed URL yields `InvalidEndpoint` and no
/// request, so nothing is ever sent to it.
pub fn fetch_block_arrow(address: &str, block_number: u64) -> (r: Result<BlockRequest, LakeError>)
    ensures
        r is Ok <==> well_formed(address@),
        r matches Ok(request) ==> request.block == BlockId::Number(block_number)
            && request.full_transactions,
        r matches Ok(request) ==> url_text(request.url) == parsed_text(address@),
        r matches Err(e) ==> refused_by(address@, e),
{
    fetch_block(address, BlockId::Number(block_number))
}

/// Turns the reply to a block request into the encoded block.
///
/// A failed call gives `RpcFailure` with the transport's text, a missing
/// block gives `BlockNotFound`, and a block is encoded as a batch of one
/// row under the block schema, returned with its debug rendering.
pub fn fetch_block_arrow_reply(reply: Result<Option<BlockRecord>, String>) -> (r: Result<
    EncodedBlock,
    LakeError,
>)
    requires
        reply_encodable(reply),
    ensures
        arrow_outcome(reply, r),
{
    match fetch_block_reply(reply) {
        Ok(record) => match encode(&record) {
            Ok(batch) => {
                let text = batch_debug_text(&batch);
                Ok(EncodedBlock { batch, text })
            },
            Err(e) => Err(e),
        },
        Err(e) => Err(e),
    }
}

/// A reply that holds a block always yields a batch, and the batch is the
/// encoding of that block: one row under the block schema.
pub proof fn block_reply_yields_batch(record: BlockRecord, r: Result<EncodedBlock, LakeError>)
    requires
        arrow_outcome(Ok(Some(record)), r),
    ensures
        r is Ok,
        holds_block(r->Ok_0.batch, record),
        r->Ok_0.text@ == block_text(record),
{
}

/// A reply that says the block is missing yields `BlockNotFound`, and a
/// failed call yields `RpcFailure`; neither yields a batch.
pub proof fn no_block_no_batch(
    reply: Result<Option<BlockRecord>, String>,
    r: Result<EncodedBlock, LakeError>,
)
    requires
        !(reply matches Ok(Some(_))),
        arrow_outcome(reply, r),
    ensures
        r is Err,
        reply matches Ok(None) ==> r->Err_0 == LakeError::BlockNotFound,
        reply matches Err(text) ==> r->Err_0.is_rpc_failure(
            crate::error::RpcCall::BlockByNumber,
            text@,
        ),
{
}

} // verus!
