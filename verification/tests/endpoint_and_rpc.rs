use eth_lake::endpoint::parse_endpoint;
use eth_lake::error::{LakeError, RpcCall};
use eth_lake::pipeline::{fetch_block_arrow, fetch_block_arrow_reply};
use eth_lake::rpc::{
    fetch_block, fetch_block_reply, get_latest_block, get_latest_block_reply, BlockId, BlockRecord,
};

fn sample_block() -> BlockRecord {
    BlockRecord {
        number: Some(5),
        hash: Some("0xabc".to_string()),
        parent_hash: "0xdef".to_string(),
    }
}

#[test]
fn well_formed_endpoint_is_parsed_and_normalised() {
    let url = parse_endpoint("http://localhost:8545").unwrap();
    assert_eq!(url.as_str(), "http://localhost:8545/");
    assert_eq!(url.scheme(), "http");
    assert_eq!(url.port(), Some(8545));
}

#[test]
fn text_that_is_no_url_is_an_invalid_endpoint() {
    let error = parse_endpoint("not a url").unwrap_err();
    assert_eq!(
        error,
        LakeError::InvalidEndpoint("relative URL without a base".to_string())
    );
    assert_eq!(error.message(), "Invalid URL: relative URL without a base");
}

#[test]
fn empty_endpoint_is_an_invalid_endpoint() {
    let error = parse_endpoint("").unwrap_err();
    assert_eq!(
        error,
        LakeError::InvalidEndpoint("relative URL without a base".to_string())
    );
}

#[test]
fn endpoint_with_a_bad_port_carries_the_parsers_message() {
    let error = parse_endpoint("http://localhost:99999").unwrap_err();
    assert_eq!(
        error,
        LakeError::InvalidEndpoint("invalid port number".to_string())
    );
}

#[test]
fn fetch_block_arrow_refuses_a_bad_endpoint_without_a_request() {
    let error = fetch_block_arrow("not a url", 5).unwrap_err();
    assert!(matches!(error, LakeError::InvalidEndpoint(_)));
}

#[test]
fn get_latest_block_refuses_a_bad_endpoint_without_a_request() {
    let error = get_latest_block("not a url").unwrap_err();
    assert!(matches!(error, LakeError::InvalidEndpoint(_)));
}

#[test]
fn fetch_block_arrow_asks_for_the_height_with_full_transactions() {
    let request = fetch_block_arrow("http://localhost:8545", 5).unwrap();
    assert_eq!(request.url.as_str(), "http://localhost:8545/");
    assert_eq!(request.block, BlockId::Number(5));
    assert!(request.full_transactions);
}

#[test]
fn fetch_block_can_ask_for_the_latest_block() {
    let request = fetch_block("https://node.example/rpc", BlockId::Latest).unwrap();
    assert_eq!(request.url.as_str(), "https://node.example/rpc");
    assert_eq!(request.block, BlockId::Latest);
    assert!(request.full_transactions);
}

#[test]
fn get_latest_block_asks_the_parsed_endpoint() {
    let request = get_latest_block("http://localhost:8545").unwrap();
    assert_eq!(request.url.host_str(), Some("localhost"));
    assert_eq!(request.url.port(), Some(8545));
}

#[test]
fn latest_block_scenario_height_100() {
    assert!(get_latest_block("http://localhost:8545").is_ok());
    assert_eq!(get_latest_block_reply(Ok(100)), Ok(100));
}

#[test]
fn same_height_twice_gives_the_same_answer() {
    let first = get_latest_block_reply(Ok(100));
    let second = get_latest_block_reply(Ok(100));
    assert_eq!(first, second);
    assert_eq!(first, Ok(100));
}

#[test]
fn largest_height_is_passed_through() {
    assert_eq!(get_latest_block_reply(Ok(u64::MAX)), Ok(u64::MAX));
    assert_eq!(get_latest_block_reply(Ok(0)), Ok(0));
}

#[test]
fn unreachable_endpoint_is_an_rpc_failure_for_the_height() {
    let error = get_latest_block_reply(Err("connection refused".to_string())).unwrap_err();
    assert_eq!(
        error,
        LakeError::RpcFailure {
            call: RpcCall::BlockNumber,
            text: "connection refused".to_string()
        }
    );
    assert_eq!(
        error.message(),
        "Failed to get block number: connection refused"
    );
}

#[test]
fn unreachable_endpoint_is_an_rpc_failure_for_the_block() {
    let error = fetch_block_arrow_reply(Err("connection refused".to_string())).unwrap_err();
    assert_eq!(
        error,
        LakeError::RpcFailure {
            call: RpcCall::BlockByNumber,
            text: "connection refused".to_string()
        }
    );
    assert_eq!(
        error.message(),
        "Failed to get block data: connection refused"
    );
}

#[test]
fn missing_block_is_block_not_found() {
    let error = fetch_block_arrow_reply(Ok(None)).unwrap_err();
    assert_eq!(error, LakeError::BlockNotFound);
    assert_eq!(error.message(), "Block not found");
    assert_eq!(fetch_block_reply(Ok(None)), Err(LakeError::BlockNotFound));
}

#[test]
fn block_reply_hands_the_record_on() {
    assert_eq!(
        fetch_block_reply(Ok(Some(sample_block()))),
        Ok(sample_block())
    );
}

#[test]
fn encoding_failure_message_is_the_carried_text() {
    let error = LakeError::EncodingFailure("columns disagree".to_string());
    assert_eq!(error.message(), "columns disagree");
}
