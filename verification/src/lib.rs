//! Block data from an Ethereum JSON-RPC endpoint, encoded as a columnar batch.
//!
//! The library decides and encodes; it performs no network I/O. A caller
//! asks it for a request, performs that request on a transport of its own
//! choosing, and hands the reply back:
//!
//! 1. [`pipeline::fetch_block_arrow`] or [`rpc::get_latest_block`]
//!    validates the endpoint and says what to ask the node.
//! 2. The caller sends the request.
//! 3. [`pipeline::fetch_block_arrow_reply`] or
//!    [`rpc::get_latest_block_reply`] turns the reply into the result.

pub mod error;
pub mod endpoint;
pub mod rpc;
pub mod columns;
pub mod encoder;
pub mod pipeline;
