use prism::output::{
    compact_report_line, format_resource_profile_summary, format_state_diff_summary,
    format_trace_summary, human_report_lines, resource_profile_lines, state_diff_line,
    whatif_status_line, OutputMode,
};
use prism::report::{FeeBreakdown, ResourceSummary, TransactionContext};
use prism::trace::{DiffChangeType, LedgerEntryDiff, StateDiff};

fn entry(key: &str, change_type: DiffChangeType) -> LedgerEntryDiff {
    LedgerEntryDiff { key: key.to_string(), before: None, after: None, change_type }
}

#[test]
fn parses_short_and_compact_as_short_mode() {
    assert_eq!(OutputMode::parse("short"), OutputMode::Short);
    assert_eq!(OutputMode::parse("compact"), OutputMode::Short);
}

#[test]
fn parses_json_and_defaults_to_human() {
    assert_eq!(OutputMode::parse("json"), OutputMode::Json);
    assert_eq!(OutputMode::parse("human"), OutputMode::Human);
    assert_eq!(OutputMode::parse("JSON"), OutputMode::Human);
    assert_eq!(OutputMode::parse(""), OutputMode::Human);
}

#[test]
fn trace_summary_is_exact() {
    assert_eq!(
        format_trace_summary("abc", 2, 3, 100, 1000),
        "Status: Complete | Tx: abc | Invocations: 2 | Changes: 3 | CPU: 100/1000"
    );
}

#[test]
fn profile_summary_mentions_warnings_only_when_present() {
    assert_eq!(
        format_resource_profile_summary(1, 2, 3, 4, 0),
        "Status: Complete | CPU: 1/2 | Memory: 3/4"
    );
    assert_eq!(
        format_resource_profile_summary(1, 2, 3, 4, 5),
        "Status: Complete | CPU: 1/2 | Memory: 3/4 | Warnings: 5"
    );
}

#[test]
fn state_diff_summary_counts_changes() {
    let diff = StateDiff {
        entries: vec![
            entry("a", DiffChangeType::Created),
            entry("b", DiffChangeType::Updated),
            entry("c", DiffChangeType::Created),
            entry("d", DiffChangeType::Deleted),
            entry("e", DiffChangeType::Unchanged),
        ],
    };
    assert_eq!(
        format_state_diff_summary(&diff),
        "Status: Complete | Changes: 5 | Created: 2 | Updated: 1 | Deleted: 1"
    );
    assert_eq!(
        format_state_diff_summary(&StateDiff::default()),
        "Status: Complete | Changes: 0 | Created: 0 | Updated: 0 | Deleted: 0"
    );
}

#[test]
fn state_diff_lines_use_change_symbols() {
    colored::control::set_override(false);
    assert_eq!(state_diff_line(&entry("k1", DiffChangeType::Created)), "+ k1");
    assert_eq!(state_diff_line(&entry("k2", DiffChangeType::Deleted)), "- k2");
    assert_eq!(state_diff_line(&entry("k3", DiffChangeType::Updated)), "~ k3");
    assert_eq!(state_diff_line(&entry("k4", DiffChangeType::Unchanged)), "  k4");
}

#[test]
fn resource_profile_lines_list_warnings() {
    colored::control::set_override(false);
    let lines = resource_profile_lines(10, 20, 30, 40, &vec!["near limit".to_string()]);
    assert_eq!(
        lines,
        vec![
            "Resource Profile".to_string(),
            "CPU: 10/20 instructions".to_string(),
            "Memory: 30/40 bytes".to_string(),
            "! near limit".to_string(),
        ]
    );
}

#[test]
fn whatif_status_lines() {
    assert_eq!(
        whatif_status_line(OutputMode::Short, "tx1", Some("p.json"), Some(3)).unwrap(),
        "Status: Ready | Tx: tx1 | Patches: 3 | Source: p.json"
    );
    assert_eq!(
        whatif_status_line(OutputMode::Short, "tx1", None, None).unwrap(),
        "Status: MissingModifyFile | Tx: tx1"
    );
    assert_eq!(
        whatif_status_line(OutputMode::Human, "tx1", Some("p.json"), Some(3)).unwrap(),
        "Patches loaded from p.json"
    );
    assert_eq!(
        whatif_status_line(OutputMode::Human, "tx1", None, None).unwrap(),
        "No --modify file provided. Use a JSON patch file to specify modifications."
    );
    assert!(whatif_status_line(OutputMode::Json, "tx1", None, None).is_none());
}

#[test]
fn compact_line_is_exact() {
    assert_eq!(
        compact_report_line("Budget", "cpu_limit_exceeded", "CPU usage exceeded limit"),
        "[Budget] cpu_limit_exceeded: CPU usage exceeded limit"
    );
}

#[test]
fn human_report_with_context_shows_budget_bars() {
    colored::control::set_override(false);
    let context = TransactionContext {
        tx_hash: "abc123".to_string(),
        ledger_sequence: 12345,
        function_name: None,
        arguments: vec![],
        fee: FeeBreakdown {
            inclusion_fee: 100,
            resource_fee: 50,
            refundable_fee: 25,
            non_refundable_fee: 25,
        },
        resources: ResourceSummary {
            cpu_instructions_used: 1000,
            cpu_instructions_limit: 10000,
            memory_bytes_used: 5000,
            memory_bytes_limit: 50000,
            read_bytes: 1000,
            write_bytes: 500,
        },
    };
    let lines = human_report_lines(
        "cpu_limit_exceeded",
        "Budget",
        1,
        "CPU usage exceeded limit",
        Some(&context),
        "10",
        "10",
    );
    assert_eq!(lines.len(), 7);
    assert!(lines[0].contains("TRANSACTION SUMMARY"));
    assert_eq!(lines[1], "Error: cpu_limit_exceeded (Budget:1)");
    assert_eq!(lines[2], "Summary: CPU usage exceeded limit");
    assert_eq!(lines[3], "");
    assert!(lines[4].contains("RESOURCE USAGE"));
    assert_eq!(lines[5], "CPU    [█░░░░░░░░░] 1000/10000 (10%)");
    assert_eq!(lines[6], "RAM    [█░░░░░░░░░] 5000/50000 (10%)");
    let short = human_report_lines("n", "c", 0, "s", None, "0", "0");
    assert_eq!(short.len(), 3);
}
