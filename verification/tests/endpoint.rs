use rpc_endpoint::endpoint::{block_number_request, dispatch_outcome, finalized_block_request};
use rpc_endpoint::{Rpc, RpcError};

#[test]
fn new_endpoint_is_healthy() {
    let rpc = Rpc::new(String::from("http://localhost:8545"), 5);
    assert_eq!(rpc.url, "http://localhost:8545");
    assert_eq!(rpc.max_consecutive, 5);
    assert_eq!(rpc.consecutive, 0);
    assert!(!rpc.status.is_erroring);
    assert_eq!(rpc.status.last_error, 0);
    assert_eq!(rpc.status.latency, 0);
    assert!(rpc.status.latency_data.is_empty());
}

#[test]
fn default_endpoint_is_empty() {
    let rpc = Rpc::default();
    assert_eq!(rpc.url, "");
    assert_eq!(rpc.max_consecutive, 0);
    assert_eq!(rpc.consecutive, 0);
    assert!(rpc.status.latency_data.is_empty());
}

#[test]
fn window_evicts_oldest_first() {
    let mut rpc = Rpc::new(String::from("http://localhost:8545"), 5);
    rpc.update_latency(10, 3);
    assert_eq!(rpc.status.latency_data, vec![10]);
    assert_eq!(rpc.status.latency, 10);
    rpc.update_latency(20, 3);
    assert_eq!(rpc.status.latency_data, vec![10, 20]);
    assert_eq!(rpc.status.latency, 15);
    rpc.update_latency(30, 3);
    assert_eq!(rpc.status.latency_data, vec![10, 20, 30]);
    assert_eq!(rpc.status.latency, 20);
    rpc.update_latency(40, 3);
    assert_eq!(rpc.status.latency_data, vec![20, 30, 40]);
    assert_eq!(rpc.status.latency, 30);
}

#[test]
fn repeated_sample_saturates_window() {
    let mut rpc = Rpc::new(String::from("http://localhost:8545"), 5);
    rpc.update_latency(10, 3);
    rpc.update_latency(7, 3);
    rpc.update_latency(7, 3);
    assert_ne!(rpc.status.latency, 7);
    rpc.update_latency(7, 3);
    assert_eq!(rpc.status.latency_data, vec![7, 7, 7]);
    assert_eq!(rpc.status.latency, 7);
    rpc.update_latency(7, 3);
    assert_eq!(rpc.status.latency, 7);
}

#[test]
fn mean_rounds_down() {
    let mut rpc = Rpc::new(String::from("http://localhost:8545"), 5);
    rpc.update_latency(1, 4);
    rpc.update_latency(2, 4);
    assert_eq!(rpc.status.latency, 1);
}

#[test]
fn transport_failure_is_typed() {
    assert_eq!(dispatch_outcome(None), Err(RpcError::Transport));
    assert_eq!(dispatch_outcome(Some(String::from("body"))), Ok(String::from("body")));
}

#[test]
fn failure_threshold_trips_and_clears() {
    let mut rpc = Rpc::new(String::from("http://localhost:8545"), 2);
    rpc.record_failure(5);
    assert_eq!(rpc.consecutive, 1);
    assert!(!rpc.status.is_erroring);
    assert_eq!(rpc.status.last_error, 0);
    rpc.record_failure(9);
    assert_eq!(rpc.consecutive, 2);
    assert!(rpc.status.is_erroring);
    assert_eq!(rpc.status.last_error, 9);
    rpc.record_success();
    assert_eq!(rpc.consecutive, 0);
    assert!(!rpc.status.is_erroring);
    assert_eq!(rpc.status.last_error, 9);
}

#[test]
fn request_bodies() {
    assert_eq!(
        block_number_request(),
        "{\"method\":\"eth_blockNumber\",\"params\":null,\"id\":1,\"jsonrpc\":\"2.0\"}"
    );
    assert_eq!(
        finalized_block_request(),
        "{\"method\":\"eth_getBlockByNumber\",\"params\":[\"finalized\",false],\"id\":1,\"jsonrpc\":\"2.0\"}"
    );
}
