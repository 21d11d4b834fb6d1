use prism::error::PrismError;
use prism::retry::{
    backoff_ms, AttemptOutcome, EnvelopeOutcome, RetryLoop, RetryStep, RpcFlavor,
};
use prism::rpc::{check_simulation, JsonRpcRequest, SimulateResult, SimulateTransactionResponse};

fn response(error: Option<&str>, results: Vec<&str>) -> SimulateTransactionResponse {
    SimulateTransactionResponse {
        latest_ledger: 100,
        soroban_data: Some("AAAA".to_string()),
        min_resource_fee: Some("1000".to_string()),
        auth: vec![],
        results: results
            .into_iter()
            .map(|x| SimulateResult { xdr: x.to_string(), auth: vec![] })
            .collect(),
        error: error.map(|e| e.to_string()),
        events: vec![],
        cost: None,
    }
}

fn responded(status: u16, envelope: EnvelopeOutcome) -> AttemptOutcome {
    AttemptOutcome::Responded {
        status,
        status_text: format!("{status}"),
        body: "body".to_string(),
        envelope,
    }
}

#[test]
fn test_simulate_response_is_success() {
    let ok = response(None, vec![]);
    assert!(ok.is_success());
    let err = SimulateTransactionResponse { error: Some("contract trap".to_string()), ..ok };
    assert!(!err.is_success());
}

#[test]
fn return_value_is_first_result() {
    assert_eq!(response(None, vec!["RETVAL=", "OTHER="]).return_value_xdr(), Some("RETVAL="));
    assert_eq!(response(None, vec![]).return_value_xdr(), None);
}

#[test]
fn simulation_errors_become_rpc_errors() {
    match check_simulation(response(Some("contract trap"), vec![])) {
        Err(PrismError::RpcError(m)) => assert_eq!(m, "simulateTransaction failed: contract trap"),
        other => panic!("unexpected {other:?}"),
    }
    assert!(check_simulation(response(None, vec![])).is_ok());
}

#[test]
fn request_envelope_uses_version_two() {
    let r = JsonRpcRequest::new(7, "getHealth", ());
    assert_eq!(r.jsonrpc, "2.0");
    assert_eq!(r.id, 7);
    assert_eq!(r.method, "getHealth");
}

#[test]
fn backoff_doubles() {
    assert_eq!(backoff_ms(0), 100);
    assert_eq!(backoff_ms(1), 200);
    assert_eq!(backoff_ms(2), 400);
    assert_eq!(backoff_ms(3), 800);
}

#[test]
fn transport_waits_start_at_100ms_soroban_waits_at_200ms() {
    let mut lp = RetryLoop::new(RpcFlavor::Transport, "getHealth".to_string(), 30, 3);
    let mut waits = Vec::new();
    for _ in 0..3 {
        match lp.record(AttemptOutcome::TimedOut) {
            RetryStep::Attempt { backoff_ms } => waits.push(backoff_ms),
            other => panic!("unexpected {other:?}"),
        }
    }
    assert_eq!(waits, vec![100, 200, 400]);

    let mut lp = RetryLoop::new(RpcFlavor::SorobanClient, "getEvents".to_string(), 30, 3);
    let mut waits = Vec::new();
    for _ in 0..3 {
        match lp.record(AttemptOutcome::TransportFailed("reset".to_string())) {
            RetryStep::Attempt { backoff_ms } => waits.push(backoff_ms),
            other => panic!("unexpected {other:?}"),
        }
    }
    assert_eq!(waits, vec![200, 400, 800]);
    match lp.record(AttemptOutcome::TransportFailed("reset".to_string())) {
        RetryStep::Fail(PrismError::RpcError(m)) => assert_eq!(m, "HTTP request failed: reset"),
        other => panic!("unexpected {other:?}"),
    }
}

#[test]
fn transport_retries_rate_limits_then_delivers() {
    let mut lp = RetryLoop::new(RpcFlavor::Transport, "getLatestLedger".to_string(), 30, 2);
    assert!(matches!(
        lp.record(responded(429, EnvelopeOutcome::HasResult)),
        RetryStep::Attempt { backoff_ms: 100 }
    ));
    assert!(matches!(
        lp.record(AttemptOutcome::TransportFailed("reset".to_string())),
        RetryStep::Attempt { backoff_ms: 200 }
    ));
    assert!(matches!(lp.record(responded(200, EnvelopeOutcome::HasResult)), RetryStep::Deliver));
}

#[test]
fn transport_timeout_is_reported_after_last_attempt() {
    let mut lp = RetryLoop::new(RpcFlavor::Transport, "getLatestLedger".to_string(), 1, 0);
    match lp.record(AttemptOutcome::TimedOut) {
        RetryStep::Fail(PrismError::NetworkTimeout { method, timeout_secs }) => {
            assert_eq!(method, "getLatestLedger");
            assert_eq!(timeout_secs, 1);
        }
        other => panic!("expected NetworkTimeout, got {other:?}"),
    }
}

#[test]
fn transport_envelope_errors_end_the_call() {
    let mut lp = RetryLoop::new(RpcFlavor::Transport, "m".to_string(), 30, 3);
    match lp.record(responded(500, EnvelopeOutcome::Malformed("eof".to_string()))) {
        RetryStep::Fail(PrismError::RpcError(m)) => assert_eq!(m, "response parse error: eof"),
        other => panic!("unexpected {other:?}"),
    }
    let mut lp = RetryLoop::new(RpcFlavor::Transport, "m".to_string(), 30, 3);
    match lp.record(responded(200, EnvelopeOutcome::ErrorObject("bad tx".to_string()))) {
        RetryStep::Fail(PrismError::RpcError(m)) => assert_eq!(m, "bad tx"),
        other => panic!("unexpected {other:?}"),
    }
    let mut lp = RetryLoop::new(RpcFlavor::Transport, "m".to_string(), 30, 3);
    match lp.record(responded(200, EnvelopeOutcome::NoResult)) {
        RetryStep::Fail(PrismError::RpcError(m)) => assert_eq!(m, "empty result"),
        other => panic!("unexpected {other:?}"),
    }
}

#[test]
fn soroban_client_policy() {
    let mut lp = RetryLoop::new(RpcFlavor::SorobanClient, "getEvents".to_string(), 30, 3);
    match lp.record(AttemptOutcome::Responded {
        status: 500,
        status_text: "500 Internal Server Error".to_string(),
        body: "oops".to_string(),
        envelope: EnvelopeOutcome::HasResult,
    }) {
        RetryStep::Fail(PrismError::RpcError(m)) => {
            assert_eq!(m, "RPC request failed with HTTP 500 Internal Server Error: oops")
        }
        other => panic!("unexpected {other:?}"),
    }
    let mut lp = RetryLoop::new(RpcFlavor::SorobanClient, "getEvents".to_string(), 30, 1);
    assert!(matches!(
        lp.record(responded(429, EnvelopeOutcome::HasResult)),
        RetryStep::Attempt { backoff_ms: 200 }
    ));
    match lp.record(responded(429, EnvelopeOutcome::HasResult)) {
        RetryStep::Fail(PrismError::RpcError(m)) => assert_eq!(m, "Rate limited (HTTP 429)"),
        other => panic!("unexpected {other:?}"),
    }
    let mut lp = RetryLoop::new(RpcFlavor::SorobanClient, "getEvents".to_string(), 30, 3);
    match lp.record(AttemptOutcome::BodyUnreadable("cut".to_string())) {
        RetryStep::Fail(PrismError::RpcError(m)) => assert_eq!(m, "Failed to read response body: cut"),
        other => panic!("unexpected {other:?}"),
    }
    let mut lp = RetryLoop::new(RpcFlavor::SorobanClient, "getEvents".to_string(), 30, 0);
    match lp.record(AttemptOutcome::TransportFailed("refused".to_string())) {
        RetryStep::Fail(PrismError::RpcError(m)) => assert_eq!(m, "HTTP request failed: refused"),
        other => panic!("unexpected {other:?}"),
    }
    let mut lp = RetryLoop::new(RpcFlavor::SorobanClient, "getEvents".to_string(), 30, 0);
    match lp.record(responded(200, EnvelopeOutcome::NoResult)) {
        RetryStep::Fail(PrismError::RpcError(m)) => assert_eq!(m, "Empty result in RPC response"),
        other => panic!("unexpected {other:?}"),
    }
}
