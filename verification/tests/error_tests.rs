use prism::decode::{filter_transaction_by_operation, TransactionEvents};
use prism::error::PrismError;
use prism::text::u64_to_decimal;

#[test]
fn errors_describe_themselves() {
    let cases = vec![
        (PrismError::RpcError("m".into()), "RPC error: m"),
        (PrismError::ArchiveError("m".into()), "Archive error: m"),
        (PrismError::XdrError("m".into()), "XDR error: m"),
        (PrismError::SpecError("m".into()), "Spec error: m"),
        (PrismError::CacheError("m".into()), "Cache error: m"),
        (PrismError::TaxonomyError("m".into()), "Taxonomy error: m"),
        (PrismError::ReplayError("m".into()), "Replay error: m"),
        (PrismError::TransactionNotFound("h".into()), "Transaction not found: h"),
        (PrismError::ContractNotFound("c".into()), "Contract not found: c"),
        (PrismError::ConfigError("m".into()), "Config error: m"),
        (PrismError::InvalidAddress("m".into()), "Invalid address: m"),
        (PrismError::Internal("m".into()), "Internal error: m"),
        (
            PrismError::NetworkTimeout { method: "getHealth".into(), timeout_secs: 30 },
            "Network timeout: getHealth did not respond within 30s",
        ),
    ];
    for (e, text) in cases {
        assert_eq!(e.describe(), text);
    }
}

#[test]
fn decimals_render_without_leading_zeros() {
    assert_eq!(u64_to_decimal(0), "0");
    assert_eq!(u64_to_decimal(10), "10");
    assert_eq!(u64_to_decimal(u64::MAX), "18446744073709551615");
}

#[test]
fn operation_filter_keeps_one_operation() {
    let mut tx = TransactionEvents {
        contract_events: Some(vec!["op0", "op1", "op2"]),
        diagnostic_events: Some(vec!["d0", "d1"]),
    };
    filter_transaction_by_operation(&mut tx, 1);
    assert_eq!(tx.contract_events, Some(vec!["op1"]));
    assert_eq!(tx.diagnostic_events, Some(vec![]));

    let mut tx = TransactionEvents {
        contract_events: Some(vec!["op0"]),
        diagnostic_events: Some(vec!["d0", "d1"]),
    };
    filter_transaction_by_operation(&mut tx, 0);
    assert_eq!(tx.contract_events, Some(vec!["op0"]));
    assert_eq!(tx.diagnostic_events, Some(vec!["d0"]));

    let mut tx: TransactionEvents<&str> = TransactionEvents {
        contract_events: Some(vec!["op0"]),
        diagnostic_events: None,
    };
    filter_transaction_by_operation(&mut tx, 5);
    assert_eq!(tx.contract_events, Some(vec![]));
    assert_eq!(tx.diagnostic_events, None);
}
