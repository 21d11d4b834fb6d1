use prism::render::{
    heat_cell, heat_shape, render_context_table, render_heatmap, render_section_header,
    BudgetBar, HeatShape, HeatmapRow, SectionHeader,
};
use prism::report::{FeeBreakdown, ResourceSummary, TransactionContext};

fn context(function_name: Option<&str>, arguments: Vec<&str>) -> TransactionContext {
    TransactionContext {
        tx_hash: "abc123".to_string(),
        ledger_sequence: 12345,
        function_name: function_name.map(|s| s.to_string()),
        arguments: arguments.into_iter().map(|s| s.to_string()).collect(),
        fee: FeeBreakdown {
            inclusion_fee: 100,
            resource_fee: 50,
            refundable_fee: 25,
            non_refundable_fee: 25,
        },
        resources: ResourceSummary {
            cpu_instructions_used: 1000,
            cpu_instructions_limit: 10000,
            memory_bytes_used: 5000,
            memory_bytes_limit: 50000,
            read_bytes: 1000,
            write_bytes: 500,
        },
    }
}

fn row(location: &str, cpu: u64, mem: u64) -> HeatmapRow {
    HeatmapRow {
        location: location.to_string(),
        cpu_instructions: cpu,
        memory_bytes: mem,
        reads: HeatShape { level: 0, filled: 0 },
        writes: HeatShape { level: 0, filled: 0 },
    }
}

#[test]
fn section_header_renders_boxed_uppercase_title() {
    let rendered = SectionHeader::new("Transaction Summary").render();
    assert!(rendered.contains("TRANSACTION SUMMARY"));
    assert!(rendered.contains("+"));
    assert!(rendered.contains("|"));
}

#[test]
fn section_header_function_trims_title() {
    let rendered = render_section_header("  network info  ");
    assert!(rendered.contains("NETWORK INFO"));
}

#[test]
fn section_header_plain_layout() {
    colored::control::set_override(false);
    assert_eq!(render_section_header(" ab "), "+----+\n| AB |\n+----+");
}

/// The percentage text of a budget bar: the floating-point share, in percent,
/// with no decimals.
fn pct(used: u64, limit: u64) -> String {
    let share = if limit > 0 { (used as f64 / limit as f64).min(1.0) } else { 0.0 };
    format!("{:.0}", share * 100.0)
}

#[test]
fn budget_bar_renders_with_zero_limit() {
    let bar = BudgetBar::new("CPU", 0, 0).render(&pct(0, 0));
    assert!(bar.contains("CPU"));
    assert!(bar.contains("0%"));
}

#[test]
fn budget_bar_plain_values() {
    colored::control::set_override(false);
    assert_eq!(BudgetBar::new("CPU", 0, 0).render(&pct(0, 0)), "CPU    [░░░░░░░░░░] 0/0 (0%)");
    assert_eq!(BudgetBar::new("RAM", 5, 10).render(&pct(5, 10)), "RAM    [█████░░░░░] 5/10 (50%)");
    assert_eq!(BudgetBar::new("CPU", 30, 10).render(&pct(30, 10)), "CPU    [██████████] 30/10 (100%)");
    assert_eq!(BudgetBar::new("CPU", 1, 8).render(&pct(1, 8)), "CPU    [█░░░░░░░░░] 1/8 (12%)");
    assert_eq!(BudgetBar::new("CPU", 3, 8).render(&pct(3, 8)), "CPU    [████░░░░░░] 3/8 (38%)");
    assert_eq!(BudgetBar::new("LONGLABEL", 1, 3).render(&pct(1, 3)), "LONGLABEL [███░░░░░░░] 1/3 (33%)");
}

#[test]
fn budget_bar_matches_floating_point_rounding_on_small_values() {
    colored::control::set_override(false);
    for limit in 1u64..200 {
        for used in 0..=limit {
            let share = (used as f64 / limit as f64).min(1.0);
            let filled = (share * 10.0).round() as usize;
            let expected = format!(
                "{:<6} [{}{}] {}/{} ({:.0}%)",
                "CPU",
                "█".repeat(filled),
                "░".repeat(10 - filled),
                used,
                limit,
                share * 100.0
            );
            let got = BudgetBar::new("CPU", used, limit).render(&pct(used, limit));
            assert_eq!(got, expected, "used={used} limit={limit}");
        }
    }
}

#[test]
fn budget_bar_shows_floating_point_percentage_at_ties() {
    colored::control::set_override(false);
    assert_eq!(BudgetBar::new("CPU", 1, 40).render(&pct(1, 40)), "CPU    [░░░░░░░░░░] 1/40 (2%)");
    assert_eq!(pct(23, 40), "57");
    assert_eq!(BudgetBar::new("CPU", 1, 8).render(&pct(1, 8)), "CPU    [█░░░░░░░░░] 1/8 (12%)");
}

#[test]
fn heat_cells_by_intensity() {
    colored::control::set_override(false);
    assert_eq!(heat_shape(0, 1), HeatShape { level: 0, filled: 0 });
    assert_eq!(heat_shape(1, 4), HeatShape { level: 1, filled: 3 });
    assert_eq!(heat_shape(1, 2), HeatShape { level: 2, filled: 5 });
    assert_eq!(heat_shape(3, 4), HeatShape { level: 3, filled: 8 });
    assert_eq!(heat_shape(7, 7), HeatShape { level: 3, filled: 10 });
    assert_eq!(heat_cell(heat_shape(3, 4)), "████████░░");
    assert_eq!(heat_cell(heat_shape(1, 2)), "▓▓▓▓▓░░░░░");
    assert_eq!(heat_cell(heat_shape(1, 4)), "▒▒▒░░░░░░░");
    assert_eq!(heat_cell(heat_shape(1, 10)), "░░░░░░░░░░");
}

#[test]
fn heatmap_empty_hotspots_shows_no_data_message() {
    let output = render_heatmap(&vec![]);
    assert!(output.contains("No hotspot data available."));
}

#[test]
fn heatmap_renders_function_names() {
    let output = render_heatmap(&vec![
        row("transfer::invoke", 800_000, 300_000),
        row("storage::get", 200_000, 100_000),
    ]);
    assert!(output.contains("transfer::invoke"));
    assert!(output.contains("storage::get"));
    assert!(output.contains("CPU"));
    assert!(output.contains("Memory"));
    assert!(output.contains("Legend"));
}

#[test]
fn heatmap_plain_layout() {
    colored::control::set_override(false);
    let output = render_heatmap(&vec![row("f", 10, 5), row("g", 5, 10)]);
    let lines: Vec<&str> = output.lines().collect();
    assert_eq!(lines[3], "  Function  CPU           Memory        Reads         Writes      ");
    assert_eq!(lines[4], format!("  {}", "-".repeat(70)));
    assert_eq!(lines[5], "  f         ██████████  ▓▓▓▓▓░░░░░  ░░░░░░░░░░  ░░░░░░░░░░");
    assert_eq!(lines[6], "  g         ▓▓▓▓▓░░░░░  ██████████  ░░░░░░░░░░  ░░░░░░░░░░");
    assert_eq!(lines[7], "");
    assert_eq!(
        lines[8],
        "  Legend: ░░░░░░░░░░ cold  ▒▒▒▒▒▒▒▒▒▒ low  ▓▓▓▓▓▓▓▓▓▓ medium  ██████████ hot"
    );
}

#[test]
fn test_render_context_table_with_arguments() {
    let output = render_context_table(&context(
        Some("transfer"),
        vec!["GABC123...", "GDEF456...", "1000"],
    ));
    assert!(output.contains("Function: transfer"));
    assert!(output.contains("Arguments:"));
    assert!(output.contains("GABC123..."));
    assert!(output.contains("GDEF456..."));
    assert!(output.contains("1000"));
}

#[test]
fn test_render_context_table_empty() {
    let output = render_context_table(&context(None, vec![]));
    assert!(output.is_empty());
}

#[test]
fn context_table_numbers_arguments_from_one() {
    let output = render_context_table(&context(None, vec!["x", "y"]));
    assert!(output.starts_with("Arguments:\n"));
    assert!(output.contains("Argument"));
    assert!(output.contains("| 1 "));
    assert!(output.contains("| 2 "));
}
