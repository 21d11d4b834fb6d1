use prism::cli::{
    bind_address, default_export_path, export_messages, log_directives, log_level, replay_messages,
    short_hash, validate_url, ExportArgs, LogLevel, ReplayArgs, ServeArgs,
};
use prism::report::{fee_breakdown_lines, i64_to_decimal, FeeBreakdown};

#[test]
fn verbosity_selects_log_level() {
    assert_eq!(log_level(0), LogLevel::Warn);
    assert_eq!(log_level(1), LogLevel::Debug);
    assert_eq!(log_level(2), LogLevel::Trace);
    assert_eq!(log_level(9), LogLevel::Trace);
    assert_eq!(log_directives(0), vec!["grat=warn".to_string(), "grat_core=warn".to_string()]);
    assert_eq!(log_directives(1), vec!["grat=debug".to_string(), "grat_core=debug".to_string()]);
    assert_eq!(log_directives(2), vec!["grat=trace".to_string(), "grat_core=trace".to_string()]);
}

#[test]
fn urls_are_validated() {
    assert_eq!(validate_url("https://rpc.example.org").unwrap(), "https://rpc.example.org");
    assert_eq!(validate_url("not a url").unwrap_err(), "Invalid URL: not a url");
}

#[test]
fn export_path_uses_hash_prefix() {
    assert_eq!(default_export_path("deadbeefcafe"), "prism_test_deadbeef.rs");
    assert_eq!(default_export_path("abc"), "prism_test_abc.rs");
    assert_eq!(short_hash("0123456789"), "01234567");
    assert_eq!(short_hash("é1234567"), "é123456");
}

#[test]
fn export_and_replay_messages() {
    let args = ExportArgs { tx_hash: "abc".to_string(), format: "test".to_string(), output: None };
    assert_eq!(
        export_messages(&args, "out.rs"),
        vec!["Exporting abc as test format...".to_string(), "Test case exported to out.rs".to_string()]
    );
    let r = ReplayArgs { tx_hash: "abc".to_string(), interactive: false };
    assert_eq!(
        replay_messages(&r),
        vec![
            "Use --interactive / -i to launch the TUI debugger.".to_string(),
            "Or use `prism trace abc` for non-interactive trace output.".to_string()
        ]
    );
    let r = ReplayArgs { tx_hash: "abc".to_string(), interactive: true };
    assert_eq!(replay_messages(&r), vec!["Launching interactive TUI debugger for abc...".to_string()]);
}

#[test]
fn bind_address_joins_host_and_port() {
    let args = ServeArgs { host: "127.0.0.1".to_string(), port: 4040 };
    assert_eq!(bind_address(&args), "127.0.0.1:4040");
}

#[test]
fn fee_breakdown_lines_are_exact() {
    let fee = FeeBreakdown { inclusion_fee: 100, resource_fee: 50, refundable_fee: 25, non_refundable_fee: 25 };
    assert_eq!(
        fee_breakdown_lines(Some(&fee)),
        vec![
            "FEE BREAKDOWN".to_string(),
            "Bid Fee: N/A".to_string(),
            "Total Charged Fee: 150 stroops".to_string(),
            "Resource Fee: 50 stroops".to_string(),
            "Inclusion Fee: 100 stroops".to_string(),
            "Surge: N/A".to_string(),
        ]
    );
    let overflow = FeeBreakdown { inclusion_fee: i64::MAX, resource_fee: 1, refundable_fee: 0, non_refundable_fee: 0 };
    let lines = fee_breakdown_lines(Some(&overflow));
    assert_eq!(lines[2], "Total Charged Fee: N/A");
    assert_eq!(lines[3], "Resource Fee: 1 stroops");
    assert_eq!(lines[4], "Inclusion Fee: N/A");
    assert_eq!(fee_breakdown_lines(None)[3], "Resource Fee: N/A");
}

#[test]
fn signed_decimals() {
    assert_eq!(i64_to_decimal(0), "0");
    assert_eq!(i64_to_decimal(-42), "-42");
    assert_eq!(i64_to_decimal(i64::MIN), "-9223372036854775808");
    assert_eq!(i64_to_decimal(i64::MAX), "9223372036854775807");
}

#[test]
fn defaults_to_warn_without_verbose() {
    let warn = log_directives(0);
    let debug = log_directives(1);
    let trace = log_directives(2);

    assert!(warn.contains(&"grat=warn".to_string()));
    assert!(debug.contains(&"grat=debug".to_string()));
    assert!(trace.contains(&"grat=trace".to_string()));
    assert!(trace.contains(&"grat_core=trace".to_string()));
}
