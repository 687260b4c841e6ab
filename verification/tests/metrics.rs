use quic_transport::metrics::{QuicTransportMetrics, RequestType, Stage, StageCounters};

#[test]
fn labels_of_call_types_and_stages() {
    assert_eq!(RequestType::Rpc.label(), "rpc");
    assert_eq!(RequestType::Push.label(), "push");
    assert_eq!(Stage::Open.label(), "open");
    assert_eq!(Stage::Write.label(), "write");
    assert_eq!(Stage::Finish.label(), "finish");
    assert_eq!(Stage::Read.label(), "read");
}

#[test]
fn new_metrics_are_zero() {
    let m = QuicTransportMetrics::new();
    for t in [RequestType::Rpc, RequestType::Push] {
        assert_eq!(m.connection_handle_requests_total(t), 0);
        for s in [Stage::Open, Stage::Write, Stage::Finish, Stage::Read] {
            assert_eq!(m.connection_handle_errors_total(t, s), 0);
        }
    }
}

#[test]
fn a_request_moves_only_its_own_counter() {
    let mut m = QuicTransportMetrics::new();
    m.count_request(RequestType::Push);
    m.count_request(RequestType::Push);
    m.count_request(RequestType::Rpc);
    assert_eq!(m.connection_handle_requests_total(RequestType::Push), 2);
    assert_eq!(m.connection_handle_requests_total(RequestType::Rpc), 1);
    assert_eq!(m.rpc_errors, StageCounters { open: 0, write: 0, finish: 0, read: 0 });
    assert_eq!(m.push_errors, StageCounters { open: 0, write: 0, finish: 0, read: 0 });
}

#[test]
fn an_error_moves_only_its_own_counter() {
    let mut m = QuicTransportMetrics::new();
    m.count_error(RequestType::Rpc, Stage::Read);
    m.count_error(RequestType::Push, Stage::Finish);
    m.count_error(RequestType::Push, Stage::Finish);
    m.count_error(RequestType::Rpc, Stage::Open);
    m.count_error(RequestType::Push, Stage::Write);
    assert_eq!(m.rpc_errors, StageCounters { open: 1, write: 0, finish: 0, read: 1 });
    assert_eq!(m.push_errors, StageCounters { open: 0, write: 1, finish: 2, read: 0 });
    assert_eq!(m.connection_handle_errors_total(RequestType::Push, Stage::Finish), 2);
    assert_eq!(m.connection_handle_requests_total(RequestType::Rpc), 0);
    assert_eq!(m.connection_handle_requests_total(RequestType::Push), 0);
}

#[test]
fn a_full_counter_stays_full() {
    let mut m = QuicTransportMetrics::new();
    m.rpc_requests = u64::MAX - 1;
    m.count_request(RequestType::Rpc);
    assert_eq!(m.rpc_requests, u64::MAX);
    m.count_request(RequestType::Rpc);
    assert_eq!(m.rpc_requests, u64::MAX);
    m.push_errors.open = u64::MAX;
    m.count_error(RequestType::Push, Stage::Open);
    assert_eq!(m.push_errors.open, u64::MAX);
}
