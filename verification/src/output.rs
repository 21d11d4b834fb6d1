//! Output formatting for CLI reports: the output modes and the one-line
//! summaries and status lines of each command.
use vstd::prelude::*;
use vstd::string::*;
use crate::paint::{
    bold, code_bold, code_dimmed, code_green, code_red, code_yellow, dimmed, green, red, styled,
    yellow,
};
use crate::text::{decimal, push_char, push_str, str_eq, u64_to_decimal};
use crate::trace::{DiffChangeType, LedgerEntryDiff, StateDiff};
use crate::render::{is_budget_bar, is_section_header, render_section_header, BudgetBar};
use crate::report::{ResourceSummary, TransactionContext};

verus! {

/// How command output is rendered.
#[derive(Debug, Clone, Copy, PartialEq, Eq)]
pub enum OutputMode {
    Human,
    Json,
    Short,
}

pub open spec fn output_mode_spec(value: Seq<char>) -> OutputMode {
    if value == "json"@ {
        OutputMode::Json
    } else if value == "compact"@ || value == "short"@ {
        OutputMode::Short
    } else {
        OutputMode::Human
    }
}

impl OutputMode {
    /// `json` selects JSON, `compact` and `short` the one-line summaries,
    /// anything else the human-readable form.
    pub fn parse(value: &str) -> (m: Self)
        ensures
            m == output_mode_spec(value@),
    {
        if str_eq(value, "json") {
            Self::Json
        } else if str_eq(value, "compact") || str_eq(value, "short") {
            Self::Short
        } else {
            Self::Human
        }
    }
}

pub open spec fn trace_summary_spec(
    tx_hash: Seq<char>,
    invocations: nat,
    changes: nat,
    total_cpu: nat,
    cpu_limit: nat,
) -> Seq<char> {
    "Status: Complete | Tx: "@ + tx_hash + " | Invocations: "@ + decimal(invocations)
        + " | Changes: "@ + decimal(changes) + " | CPU: "@ + decimal(total_cpu) + "/"@ + decimal(
        cpu_limit,
    )
}

/// The one-line summary of an execution trace.
pub fn format_trace_summary(
    tx_hash: &str,
    invocations: usize,
    changes: usize,
    total_cpu: u64,
    cpu_limit: u64,
) -> (s: String)
    ensures
        s@ == trace_summary_spec(
            tx_hash@,
            invocations as nat,
            changes as nat,
            total_cpu as nat,
            cpu_limit as nat,
        ),
{
    let mut s = String::from_str("Status: Complete | Tx: ");
    push_str(&mut s, tx_hash);
    push_str(&mut s, " | Invocations: ");
    let a = u64_to_decimal(invocations as u64);
    push_str(&mut s, a.as_str());
    push_str(&mut s, " | Changes: ");
    let b = u64_to_decimal(changes as u64);
    push_str(&mut s, b.as_str());
    push_str(&mut s, " | CPU: ");
    let c = u64_to_decimal(total_cpu);
    push_str(&mut s, c.as_str());
    push_str(&mut s, "/");
    let d = u64_to_decimal(cpu_limit);
    push_str(&mut s, d.as_str());
    s
}

pub open spec fn profile_summary_spec(
    total_cpu: nat,
    cpu_limit: nat,
    total_memory: nat,
    memory_limit: nat,
    warnings: nat,
) -> Seq<char> {
    "Status: Complete | CPU: "@ + decimal(total_cpu) + "/"@ + decimal(cpu_limit) + " | Memory: "@
        + decimal(total_memory) + "/"@ + decimal(memory_limit) + if warnings == 0 {
        Seq::empty()
    } else {
        " | Warnings: "@ + decimal(warnings)
    }
}

/// The one-line summary of a resource profile.
pub fn format_resource_profile_summary(
    total_cpu: u64,
    cpu_limit: u64,
    total_memory: u64,
    memory_limit: u64,
    warnings: usize,
) -> (s: String)
    ensures
        s@ == profile_summary_spec(
            total_cpu as nat,
            cpu_limit as nat,
            total_memory as nat,
            memory_limit as nat,
            warnings as nat,
        ),
{
    let mut s = String::from_str("Status: Complete | CPU: ");
    let a = u64_to_decimal(total_cpu);
    push_str(&mut s, a.as_str());
    push_str(&mut s, "/");
    let b = u64_to_decimal(cpu_limit);
    push_str(&mut s, b.as_str());
    push_str(&mut s, " | Memory: ");
    let c = u64_to_decimal(total_memory);
    push_str(&mut s, c.as_str());
    push_str(&mut s, "/");
    let d = u64_to_decimal(memory_limit);
    push_str(&mut s, d.as_str());
    if warnings > 0 {
        push_str(&mut s, " | Warnings: ");
        let w = u64_to_decimal(warnings as u64);
        push_str(&mut s, w.as_str());
    }
    s
}

/// How many entries of `s` have the given change type.
pub open spec fn count_changes(s: Seq<LedgerEntryDiff>, t: DiffChangeType) -> nat
    decreases s.len(),
{
    if s.len() == 0 {
        0
    } else {
        count_changes(s.drop_last(), t) + if s.last().change_type == t {
            1nat
        } else {
            0nat
        }
    }
}

proof fn lemma_count_changes_bound(s: Seq<LedgerEntryDiff>, t: DiffChangeType)
    ensures
        count_changes(s, t) <= s.len(),
    decreases s.len(),
{
    if s.len() > 0 {
        lemma_count_changes_bound(s.drop_last(), t);
    }
}

pub open spec fn diff_summary_spec(s: Seq<LedgerEntryDiff>) -> Seq<char> {
    "Status: Complete | Changes: "@ + decimal(s.len()) + " | Created: "@ + decimal(
        count_changes(s, DiffChangeType::Created),
    ) + " | Updated: "@ + decimal(count_changes(s, DiffChangeType::Updated)) + " | Deleted: "@
        + decimal(count_changes(s, DiffChangeType::Deleted))
}

/// The entries of `s` whose change is `t`, in order.
pub open spec fn of_type(s: Seq<LedgerEntryDiff>, t: DiffChangeType) -> Seq<LedgerEntryDiff> {
    s.filter(|e: LedgerEntryDiff| e.change_type == t)
}

proof fn lemma_count_is_filter_len(s: Seq<LedgerEntryDiff>, t: DiffChangeType)
    ensures
        count_changes(s, t) == of_type(s, t).len(),
    decreases s.len(),
{
    reveal(Seq::filter);
    if s.len() > 0 {
        lemma_count_is_filter_len(s.drop_last(), t);
    }
}

/// The summary shows the number of entries, then after `Created:`,
/// `Updated:` and `Deleted:` the number of entries with that change, in that
/// order.
pub proof fn law_summary_counts_each_change_type(s: Seq<LedgerEntryDiff>)
    ensures
        diff_summary_spec(s) == "Status: Complete | Changes: "@ + decimal(s.len())
            + " | Created: "@ + decimal(of_type(s, DiffChangeType::Created).len())
            + " | Updated: "@ + decimal(of_type(s, DiffChangeType::Updated).len())
            + " | Deleted: "@ + decimal(of_type(s, DiffChangeType::Deleted).len()),
{
    lemma_count_is_filter_len(s, DiffChangeType::Created);
    lemma_count_is_filter_len(s, DiffChangeType::Updated);
    lemma_count_is_filter_len(s, DiffChangeType::Deleted);
}

/// The one-line summary of a state diff: how many entries changed, and how
/// many were created, updated and deleted.
pub fn format_state_diff_summary(diff: &StateDiff) -> (s: String)
    ensures
        s@ == diff_summary_spec(diff.entries@),
        s@ == "Status: Complete | Changes: "@ + decimal(diff.entries@.len()) + " | Created: "@
            + decimal(of_type(diff.entries@, DiffChangeType::Created).len()) + " | Updated: "@
            + decimal(of_type(diff.entries@, DiffChangeType::Updated).len()) + " | Deleted: "@
            + decimal(of_type(diff.entries@, DiffChangeType::Deleted).len()),
{
    proof {
        law_summary_counts_each_change_type(diff.entries@);
    }
    let mut created: usize = 0;
    let mut updated: usize = 0;
    let mut deleted: usize = 0;
    let mut k: usize = 0;
    while k < diff.entries.len()
        invariant
            k <= diff.entries@.len(),
            created == count_changes(diff.entries@.take(k as int), DiffChangeType::Created),
            updated == count_changes(diff.entries@.take(k as int), DiffChangeType::Updated),
            deleted == count_changes(diff.entries@.take(k as int), DiffChangeType::Deleted),
        decreases diff.entries.len() - k,
    {
        proof {
            assert(diff.entries@.take(k + 1).drop_last() =~= diff.entries@.take(k as int));
            lemma_count_changes_bound(diff.entries@.take(k as int), DiffChangeType::Created);
            lemma_count_changes_bound(diff.entries@.take(k as int), DiffChangeType::Updated);
            lemma_count_changes_bound(diff.entries@.take(k as int), DiffChangeType::Deleted);
        }
        match diff.entries[k].change_type {
            DiffChangeType::Created => created = created + 1,
            DiffChangeType::Updated => updated = updated + 1,
            DiffChangeType::Deleted => deleted = deleted + 1,
            DiffChangeType::Unchanged => {},
        }
        k = k + 1;
    }
    proof {
        assert(diff.entries@.take(k as int) =~= diff.entries@);
    }
    let mut s = String::from_str("Status: Complete | Changes: ");
    let a = u64_to_decimal(diff.entries.len() as u64);
    push_str(&mut s, a.as_str());
    push_str(&mut s, " | Created: ");
    let b = u64_to_decimal(created as u64);
    push_str(&mut s, b.as_str());
    push_str(&mut s, " | Updated: ");
    let c = u64_to_decimal(updated as u64);
    push_str(&mut s, c.as_str());
    push_str(&mut s, " | Deleted: ");
    let d = u64_to_decimal(deleted as u64);
    push_str(&mut s, d.as_str());
    s
}

/// The symbol of a change: `+` created, `-` deleted, `~` updated, a space
/// for unchanged.
pub open spec fn change_symbol(t: DiffChangeType) -> Seq<char> {
    match t {
        DiffChangeType::Created => seq!['+'],
        DiffChangeType::Deleted => seq!['-'],
        DiffChangeType::Updated => seq!['~'],
        DiffChangeType::Unchanged => seq![' '],
    }
}

/// The style of a change's symbol: green, red, yellow, dimmed.
pub open spec fn change_code(t: DiffChangeType) -> Seq<char> {
    match t {
        DiffChangeType::Created => code_green(),
        DiffChangeType::Deleted => code_red(),
        DiffChangeType::Updated => code_yellow(),
        DiffChangeType::Unchanged => code_dimmed(),
    }
}

/// `line` is the styled `symbol`, a space, and `rest`.
pub open spec fn styled_then(line: Seq<char>, symbol: Seq<char>, code: Seq<char>, rest: Seq<char>) -> bool {
    &&& line.len() >= rest.len() + 1
    &&& styled(line.subrange(0, line.len() - rest.len() - 1), symbol, code)
    &&& line.subrange(line.len() - rest.len() - 1, line.len() as int) == seq![' '] + rest
}

/// The human-readable line of one state-diff entry: its styled change
/// symbol and its key.
pub fn state_diff_line(entry: &LedgerEntryDiff) -> (s: String)
    ensures
        styled_then(s@, change_symbol(entry.change_type), change_code(entry.change_type), entry.key@),
{
    let mut s = match entry.change_type {
        DiffChangeType::Created => green("+"),
        DiffChangeType::Deleted => red("-"),
        DiffChangeType::Updated => yellow("~"),
        DiffChangeType::Unchanged => dimmed(" "),
    };
    proof {
        reveal_strlit("+");
        reveal_strlit("-");
        reveal_strlit("~");
        reveal_strlit(" ");
        assert("+"@ =~= seq!['+']);
        assert("-"@ =~= seq!['-']);
        assert("~"@ =~= seq!['~']);
        assert(" "@ =~= seq![' ']);
    }
    let ghost sym = s@;
    push_char(&mut s, ' ');
    push_str(&mut s, entry.key.as_str());
    proof {
        assert(s@.subrange(0, s@.len() - entry.key@.len() - 1) =~= sym);
        assert(s@.subrange(s@.len() - entry.key@.len() - 1, s@.len() as int) =~= seq![' '] + entry.key@);
    }
    s
}

/// The lines of a human-readable resource profile: the bold title, CPU and
/// memory use against their limits, and one styled `!` line per warning.
pub open spec fn profile_lines_ok(
    lines: Seq<Seq<char>>,
    total_cpu: nat,
    cpu_limit: nat,
    total_memory: nat,
    memory_limit: nat,
    warnings: Seq<Seq<char>>,
) -> bool {
    &&& lines.len() == warnings.len() + 3
    &&& styled(lines[0], "Resource Profile"@, code_bold())
    &&& lines[1] == "CPU: "@ + decimal(total_cpu) + "/"@ + decimal(cpu_limit) + " instructions"@
    &&& lines[2] == "Memory: "@ + decimal(total_memory) + "/"@ + decimal(memory_limit) + " bytes"@
    &&& forall|i: int|
        0 <= i < warnings.len() ==> styled_then(#[trigger] lines[i + 3], seq!['!'], code_yellow(), warnings[i])
}

/// Renders a resource profile for people.
pub fn resource_profile_lines(
    total_cpu: u64,
    cpu_limit: u64,
    total_memory: u64,
    memory_limit: u64,
    warnings: &Vec<String>,
) -> (lines: Vec<String>)
    ensures
        profile_lines_ok(
            lines@.map_values(|l: String| l@),
            total_cpu as nat,
            cpu_limit as nat,
            total_memory as nat,
            memory_limit as nat,
            warnings@.map_values(|w: String| w@),
        ),
{
    let mut lines: Vec<String> = Vec::new();
    lines.push(bold("Resource Profile"));
    let mut cpu = String::from_str("CPU: ");
    let a = u64_to_decimal(total_cpu);
    push_str(&mut cpu, a.as_str());
    push_str(&mut cpu, "/");
    let b = u64_to_decimal(cpu_limit);
    push_str(&mut cpu, b.as_str());
    push_str(&mut cpu, " instructions");
    lines.push(cpu);
    let mut mem = String::from_str("Memory: ");
    let c = u64_to_decimal(total_memory);
    push_str(&mut mem, c.as_str());
    push_str(&mut mem, "/");
    let d = u64_to_decimal(memory_limit);
    push_str(&mut mem, d.as_str());
    push_str(&mut mem, " bytes");
    lines.push(mem);
    proof {
        reveal_strlit("!");
        assert("!"@ =~= seq!['!']);
    }
    let mut k: usize = 0;
    while k < warnings.len()
        invariant
            k <= warnings@.len(),
            lines@.len() == k + 3,
            "!"@ == seq!['!'],
            styled(lines@[0]@, "Resource Profile"@, code_bold()),
            lines@[1]@ == "CPU: "@ + decimal(total_cpu as nat) + "/"@ + decimal(cpu_limit as nat)
                + " instructions"@,
            lines@[2]@ == "Memory: "@ + decimal(total_memory as nat) + "/"@ + decimal(
                memory_limit as nat,
            ) + " bytes"@,
            forall|i: int|
                0 <= i < k ==> styled_then(#[trigger] lines@[i + 3]@, seq!['!'], code_yellow(), warnings@[i]@),
        decreases warnings.len() - k,
    {
        let mut line = yellow("!");
        let ghost sym = line@;
        push_char(&mut line, ' ');
        push_str(&mut line, warnings[k].as_str());
        proof {
            assert(line@.subrange(0, line@.len() - warnings@[k as int]@.len() - 1) =~= sym);
            assert(line@.subrange(line@.len() - warnings@[k as int]@.len() - 1, line@.len() as int)
                =~= seq![' '] + warnings@[k as int]@);
        }
        lines.push(line);
        k = k + 1;
    }
    proof {
        let lv = lines@.map_values(|l: String| l@);
        let wv = warnings@.map_values(|w: String| w@);
        assert forall|i: int| 0 <= i < wv.len() implies styled_then(#[trigger] lv[i + 3], seq!['!'], code_yellow(), wv[i]) by {
            assert(lv[i + 3] == lines@[i + 3]@);
            assert(wv[i] == warnings@[i]@);
        }
    }
    lines
}

pub open spec fn whatif_line_spec(
    mode: OutputMode,
    tx_hash: Seq<char>,
    patch_file: Option<Seq<char>>,
    patch_count: Option<nat>,
) -> Option<Seq<char>> {
    match mode {
        OutputMode::Short => match (patch_file, patch_count) {
            (Some(path), Some(count)) => Some(
                "Status: Ready | Tx: "@ + tx_hash + " | Patches: "@ + decimal(count) + " | Source: "@
                    + path,
            ),
            _ => Some("Status: MissingModifyFile | Tx: "@ + tx_hash),
        },
        OutputMode::Human => match patch_file {
            Some(path) => Some("Patches loaded from "@ + path),
            None => Some(
                "No --modify file provided. Use a JSON patch file to specify modifications."@,
            ),
        },
        OutputMode::Json => None,
    }
}

/// The status line of a what-if run in the short and human modes (the JSON
/// mode prints a document instead, and gets `None`).
pub fn whatif_status_line(
    mode: OutputMode,
    tx_hash: &str,
    patch_file: Option<&str>,
    patch_count: Option<usize>,
) -> (r: Option<String>)
    ensures
        opt_text(r) == whatif_line_spec(
            mode,
            tx_hash@,
            match patch_file {
                Some(p) => Some(p@),
                None => None,
            },
            match patch_count {
                Some(c) => Some(c as nat),
                None => None,
            },
        ),
{
    match mode {
        OutputMode::Short => match (patch_file, patch_count) {
            (Some(path), Some(count)) => {
                let mut s = String::from_str("Status: Ready | Tx: ");
                push_str(&mut s, tx_hash);
                push_str(&mut s, " | Patches: ");
                let c = u64_to_decimal(count as u64);
                push_str(&mut s, c.as_str());
                push_str(&mut s, " | Source: ");
                push_str(&mut s, path);
                Some(s)
            },
            _ => {
                let mut s = String::from_str("Status: MissingModifyFile | Tx: ");
                push_str(&mut s, tx_hash);
                Some(s)
            },
        },
        OutputMode::Human => match patch_file {
            Some(path) => {
                let mut s = String::from_str("Patches loaded from ");
                push_str(&mut s, path);
                Some(s)
            },
            None => Some(
                String::from_str(
                    "No --modify file provided. Use a JSON patch file to specify modifications.",
                ),
            ),
        },
        OutputMode::Json => None,
    }
}

/// The text of an optional string.
pub open spec fn opt_text(o: Option<String>) -> Option<Seq<char>> {
    match o {
        Some(s) => Some(s@),
        None => None,
    }
}

/// The compact one-line form of a diagnostic report.
pub fn compact_report_line(category: &str, name: &str, summary: &str) -> (s: String)
    ensures
        s@ == "["@ + category@ + "] "@ + name@ + ": "@ + summary@,
{
    let mut s = String::from_str("[");
    push_str(&mut s, category);
    push_str(&mut s, "] ");
    push_str(&mut s, name);
    push_str(&mut s, ": ");
    push_str(&mut s, summary);
    s
}

/// The lines of the human-readable diagnostic report: the summary section,
/// then, when the transaction context is known, the resource section with
/// CPU and RAM budget bars.
pub open spec fn human_report_ok(
    lines: Seq<Seq<char>>,
    name: Seq<char>,
    category: Seq<char>,
    code: u32,
    summary: Seq<char>,
    resources: Option<ResourceSummary>,
    cpu_percent: Seq<char>,
    ram_percent: Seq<char>,
) -> bool {
    &&& is_section_header(lines[0], "Transaction Summary"@)
    &&& lines[1] == "Error: "@ + name + " ("@ + category + ":"@ + decimal(code as nat) + ")"@
    &&& lines[2] == "Summary: "@ + summary
    &&& match resources {
        None => lines.len() == 3,
        Some(r) => {
            &&& lines.len() == 7
            &&& lines[3] == Seq::<char>::empty()
            &&& is_section_header(lines[4], "Resource Usage"@)
            &&& is_budget_bar(
                lines[5],
                "CPU"@,
                r.cpu_instructions_used,
                r.cpu_instructions_limit,
                cpu_percent,
            )
            &&& is_budget_bar(
                lines[6],
                "RAM"@,
                r.memory_bytes_used,
                r.memory_bytes_limit,
                ram_percent,
            )
        },
    }
}

/// Renders a diagnostic report for people; `cpu_percent` and `ram_percent`
/// are the percentage texts of the two budget bars (see `BudgetBar::render`),
/// shown when the transaction context is known.
pub fn human_report_lines(
    name: &str,
    category: &str,
    code: u32,
    summary: &str,
    context: Option<&TransactionContext>,
    cpu_percent: &str,
    ram_percent: &str,
) -> (lines: Vec<String>)
    ensures
        human_report_ok(
            lines@.map_values(|l: String| l@),
            name@,
            category@,
            code,
            summary@,
            match context {
                Some(c) => Some(c.resources),
                None => None,
            },
            cpu_percent@,
            ram_percent@,
        ),
{
    let mut lines: Vec<String> = Vec::new();
    lines.push(render_section_header("Transaction Summary"));
    let mut e = String::from_str("Error: ");
    push_str(&mut e, name);
    push_str(&mut e, " (");
    push_str(&mut e, category);
    push_str(&mut e, ":");
    let c = u64_to_decimal(code as u64);
    push_str(&mut e, c.as_str());
    push_str(&mut e, ")");
    lines.push(e);
    let mut sm = String::from_str("Summary: ");
    push_str(&mut sm, summary);
    lines.push(sm);
    match context {
        Some(ctx) => {
            lines.push(String::new());
            lines.push(render_section_header("Resource Usage"));
            let cpu = BudgetBar::new(
                "CPU",
                ctx.resources.cpu_instructions_used,
                ctx.resources.cpu_instructions_limit,
            ).render(cpu_percent);
            let ram = BudgetBar::new(
                "RAM",
                ctx.resources.memory_bytes_used,
                ctx.resources.memory_bytes_limit,
            ).render(ram_percent);
            let ghost cv = cpu@;
            let ghost rv = ram@;
            lines.push(cpu);
            lines.push(ram);
            proof {
                let lv = lines@.map_values(|l: String| l@);
                let r = ctx.resources;
                assert(lv[5] == cv);
                assert(lv[6] == rv);
                assert(is_budget_bar(
                    lv[5],
                    "CPU"@,
                    r.cpu_instructions_used,
                    r.cpu_instructions_limit,
                    cpu_percent@,
                ));
                assert(is_budget_bar(
                    lv[6],
                    "RAM"@,
                    r.memory_bytes_used,
                    r.memory_bytes_limit,
                    ram_percent@,
                ));
            }
        },
        None => {},
    }
    proof {
        let lv = lines@.map_values(|l: String| l@);
        assert(lv[0] == lines@[0]@);
        assert(lv[1] == lines@[1]@);
        assert(lv[2] == lines@[2]@);
        assert(is_section_header(lv[0], "Transaction Summary"@));
        assert(lv[1] == "Error: "@ + name@ + " ("@ + category@ + ":"@ + decimal(code as nat) + ")"@);
        assert(lv[2] == "Summary: "@ + summary@);
        if context is Some {
            assert(lv[3] == lines@[3]@);
            assert(lv[3] == Seq::<char>::empty());
            assert(lv[4] == lines@[4]@);
            assert(lv[5] == lines@[5]@);
            assert(lv[6] == lines@[6]@);
        }
    }
    lines
}

} // verus!
