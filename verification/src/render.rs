//! Shared terminal renderers for CLI output: boxed section headers, budget
//! bars, and the resource heatmap.
//!
//! Ratios such as `used / limit` are computed exactly on the integers: a bar
//! of ten cells fills `round(10 * used / limit)` cells (halves round up). The
//! percentage a budget bar shows is formatted from a floating-point share,
//! so the caller hands it in as text.
use vstd::prelude::*;
use vstd::string::*;
use vstd::utf8::encode_utf8;
use crate::chars::{trimmed, trimmed_range};
use crate::report::TransactionContext;
use crate::paint::{
    code_cyan, code_cyan_bold, code_dimmed, code_green, code_red_bold, code_white_bold,
    code_yellow, cyan, cyan_bold, dimmed, green, red_bold, styled, white_bold, yellow,
};
use crate::text::{
    chars_of, chars_to_string, decimal, opt_view, pad_right, pad_right_str, push_char, push_str, repeat,
    repeat_str, to_uppercase, u64_to_decimal, uppercase,
};

verus! {

broadcast use vstd::string::group_string_axioms;

/// The number of cells in a bar.
pub const BAR_WIDTH: usize = 10;

pub open spec fn nl() -> Seq<char> {
    seq!['\n']
}

/// The title as a header shows it: trimmed and upper-cased.
pub open spec fn header_title(title: Seq<char>) -> Seq<char> {
    uppercase(trimmed(title))
}

pub open spec fn header_inner(t: Seq<char>) -> Seq<char> {
    seq![' '] + t + seq![' ']
}

pub open spec fn header_border(t: Seq<char>) -> Seq<char> {
    seq!['+'] + repeat(seq!['-'], header_inner(t).len()) + seq!['+']
}

pub open spec fn header_middle(t: Seq<char>) -> Seq<char> {
    seq!['|'] + header_inner(t) + seq!['|']
}

/// `r` is the boxed header of `title`, with `b` the styled border and `m`
/// the styled middle line.
pub open spec fn header_parts(r: Seq<char>, b: Seq<char>, m: Seq<char>, title: Seq<char>) -> bool {
    let t = header_title(title);
    &&& styled(b, header_border(t), code_cyan_bold())
    &&& styled(m, header_middle(t), code_white_bold())
    &&& r == b + nl() + m + nl() + b
}

/// `r` is a boxed section header for `title`; how the styling wraps a title
/// that holds escape characters of its own is left open.
pub open spec fn is_section_header(r: Seq<char>, title: Seq<char>) -> bool {
    exists|b: Seq<char>, m: Seq<char>| #[trigger] header_parts(r, b, m, title)
}

/// Utility for rendering a clearly separated section heading.
pub struct SectionHeader<'a> {
    title: &'a str,
}

impl<'a> SectionHeader<'a> {
    pub closed spec fn title(&self) -> Seq<char> {
        self.title@
    }

    pub fn new(title: &'a str) -> (h: Self)
        ensures
            h.title() == title@,
    {
        Self { title }
    }

    /// The title, trimmed and upper-cased, in a box of `+`, `-` and `|`.
    pub fn render(&self) -> (r: String)
        ensures
            is_section_header(r@, self.title()),
    {
        let v = chars_of(self.title);
        let t = trimmed_range(&v, 0, v.len());
        proof {
            assert(v@.subrange(0, v@.len() as int) =~= v@);
        }
        let ts = chars_to_string(&t, 0, t.len());
        proof {
            assert(t@.subrange(0, t@.len() as int) =~= t@);
        }
        let up = to_uppercase(ts.as_str());
        let mut inner = String::new();
        push_char(&mut inner, ' ');
        push_str(&mut inner, up.as_str());
        push_char(&mut inner, ' ');
        let n = chars_of(inner.as_str()).len();
        let mut border = String::new();
        push_char(&mut border, '+');
        let dashes = repeat_str("-", n);
        proof {
            reveal_strlit("-");
            assert("-"@ =~= seq!['-']);
        }
        push_str(&mut border, dashes.as_str());
        push_char(&mut border, '+');
        let mut middle = String::new();
        push_char(&mut middle, '|');
        push_str(&mut middle, inner.as_str());
        push_char(&mut middle, '|');
        let ghost tt = header_title(self.title@);
        proof {
            assert(inner@ =~= header_inner(tt));
            assert(border@ =~= header_border(tt));
            assert(middle@ =~= header_middle(tt));
        }
        let b = cyan_bold(border.as_str());
        let m = white_bold(middle.as_str());
        let mut r = String::new();
        push_str(&mut r, b.as_str());
        push_char(&mut r, '\n');
        push_str(&mut r, m.as_str());
        push_char(&mut r, '\n');
        push_str(&mut r, b.as_str());
        proof {
            assert(r@ =~= b@ + nl() + m@ + nl() + b@);
            assert(header_parts(r@, b@, m@, self.title@));
        }
        r
    }
}

/// Render a boxed section header suitable for terminal report sections.
pub fn render_section_header(title: &str) -> (r: String)
    ensures
        is_section_header(r@, title@),
{
    SectionHeader::new(title).render()
}

/// The share of the budget used, as a fraction `num / den` capped at 1;
/// `0 / 1` when there is no limit.
pub open spec fn share(used: u64, limit: u64) -> (nat, nat) {
    if limit > 0 {
        (if used <= limit {
            used as nat
        } else {
            limit as nat
        }, limit as nat)
    } else {
        (0, 1)
    }
}

/// `round(10 * num / den)`, halves rounding up.
pub open spec fn round_tenths(num: nat, den: nat) -> nat {
    (20 * num + den) / (2 * den)
}

/// A bar of ten cells with `filled` full cells.
pub open spec fn bar_text(filled: nat) -> Seq<char> {
    repeat(seq!['█'], filled) + repeat(seq!['░'], (10 - filled) as nat)
}

/// The style of a bar: red from 90% on, yellow from 70%, green below.
pub open spec fn bar_code(num: nat, den: nat) -> Seq<char> {
    if 10 * num >= 9 * den {
        code_red_bold()
    } else if 10 * num >= 7 * den {
        code_yellow()
    } else {
        code_green()
    }
}

/// `r` is the budget bar line for `label`, `used` and `limit` showing the
/// percentage text `percent`, with `c` the styled bar.
pub open spec fn bar_parts(
    r: Seq<char>,
    c: Seq<char>,
    label: Seq<char>,
    used: u64,
    limit: u64,
    percent: Seq<char>,
) -> bool {
    let (num, den) = share(used, limit);
    &&& styled(c, bar_text(round_tenths(num, den)), bar_code(num, den))
    &&& r == pad_right(label, 6) + " ["@ + c + "] "@ + decimal(used as nat) + "/"@ + decimal(
        limit as nat,
    ) + " ("@ + percent + "%)"@
}

/// `r` is the budget bar line for `label`, `used` and `limit` showing the
/// percentage text `percent`.
pub open spec fn is_budget_bar(
    r: Seq<char>,
    label: Seq<char>,
    used: u64,
    limit: u64,
    percent: Seq<char>,
) -> bool {
    exists|c: Seq<char>| #[trigger] bar_parts(r, c, label, used, limit, percent)
}

/// Renders a colored budget utilization bar for Soroban resource usage.
pub struct BudgetBar {
    label: &'static str,
    used: u64,
    limit: u64,
}

impl BudgetBar {
    pub closed spec fn label(&self) -> Seq<char> {
        self.label@
    }

    pub closed spec fn used(&self) -> u64 {
        self.used
    }

    pub closed spec fn limit(&self) -> u64 {
        self.limit
    }

    pub fn new(label: &'static str, used: u64, limit: u64) -> (b: Self)
        ensures
            b.label() == label@,
            b.used() == used,
            b.limit() == limit,
    {
        Self { label, used, limit }
    }

    /// `LABEL  [bar] used/limit (pct%)`, where `percent` is the share of the
    /// budget used, in percent, as text: `min(used / limit, 1) * 100` in
    /// floating point formatted with no decimals (`0` without a limit).
    pub fn render(&self, percent: &str) -> (r: String)
        ensures
            is_budget_bar(r@, self.label(), self.used(), self.limit(), percent@),
    {
        let (num, den): (u128, u128) = if self.limit > 0 {
            (if self.used <= self.limit {
                self.used as u128
            } else {
                self.limit as u128
            }, self.limit as u128)
        } else {
            (0, 1)
        };
        assert(num <= den);
        let filled = ((20 * num + den) / (2 * den)) as usize;
        proof {
            assert((20 * num + den) / (2 * den) <= 10) by (nonlinear_arith)
                requires
                    num <= den,
                    den > 0,
            ;
        }
        let mut bar = repeat_str("█", filled);
        let empty = repeat_str("░", BAR_WIDTH - filled);
        push_str(&mut bar, empty.as_str());
        proof {
            reveal_strlit("█");
            reveal_strlit("░");
            assert("█"@ =~= seq!['█']);
            assert("░"@ =~= seq!['░']);
            assert(bar@ =~= bar_text(filled as nat));
        }
        let colored = if 10 * num >= 9 * den {
            red_bold(bar.as_str())
        } else if 10 * num >= 7 * den {
            yellow(bar.as_str())
        } else {
            green(bar.as_str())
        };
        let mut r = pad_right_str(self.label, 6);
        push_str(&mut r, " [");
        push_str(&mut r, colored.as_str());
        push_str(&mut r, "] ");
        let u = u64_to_decimal(self.used);
        push_str(&mut r, u.as_str());
        push_str(&mut r, "/");
        let l = u64_to_decimal(self.limit);
        push_str(&mut r, l.as_str());
        push_str(&mut r, " (");
        push_str(&mut r, percent);
        push_str(&mut r, "%)");
        proof {
            assert(bar_parts(r@, colored@, self.label(), self.used(), self.limit(), percent@));
        }
        r
    }
}

/// How a heatmap cell looks before styling: its heat level (0 cold to
/// 3 hot) and how many of its ten cells are filled.
#[derive(Debug, Clone, Copy, PartialEq, Eq)]
pub struct HeatShape {
    pub level: u8,
    pub filled: usize,
}

/// The heat level of an intensity `num / den`: from 0.75 on hot (3), from
/// 0.5 medium (2), from 0.25 low (1), cold (0) below.
pub open spec fn heat_level(num: nat, den: nat) -> u8 {
    if 4 * num >= 3 * den {
        3
    } else if 2 * num >= den {
        2
    } else if 4 * num >= den {
        1
    } else {
        0
    }
}

/// The shape of a heatmap cell for the intensity `num / den` (at most 1).
pub fn heat_shape(num: u64, den: u64) -> (s: HeatShape)
    requires
        den > 0,
        num <= den,
    ensures
        s.level == heat_level(num as nat, den as nat),
        s.filled == round_tenths(num as nat, den as nat),
        s.filled <= 10,
{
    let n = num as u128;
    let d = den as u128;
    let level: u8 = if 4 * n >= 3 * d {
        3
    } else if 2 * n >= d {
        2
    } else if 4 * n >= d {
        1
    } else {
        0
    };
    proof {
        assert((20 * n + d) / (2 * d) <= 10) by (nonlinear_arith)
            requires
                n <= d,
                d > 0,
        ;
    }
    HeatShape { level, filled: ((20 * n + d) / (2 * d)) as usize }
}

/// The block character of a heat level.
pub open spec fn heat_block(level: u8) -> char {
    if level >= 3 {
        '█'
    } else if level == 2 {
        '▓'
    } else if level == 1 {
        '▒'
    } else {
        '░'
    }
}

/// A cell's text: `filled` blocks of its level, then light shade.
pub open spec fn heat_text(s: HeatShape) -> Seq<char> {
    repeat(seq![heat_block(s.level)], s.filled as nat) + repeat(seq!['░'], (10 - s.filled) as nat)
}

/// A cell's style: hot red, medium yellow, low cyan, cold dimmed.
pub open spec fn heat_code(level: u8) -> Seq<char> {
    if level >= 3 {
        code_red_bold()
    } else if level == 2 {
        code_yellow()
    } else if level == 1 {
        code_cyan()
    } else {
        code_dimmed()
    }
}

/// Map a cell shape to its styled block characters.
pub fn heat_cell(shape: HeatShape) -> (r: String)
    requires
        shape.filled <= 10,
    ensures
        styled(r@, heat_text(shape), heat_code(shape.level)),
{
    let block = if shape.level >= 3 {
        "█"
    } else if shape.level == 2 {
        "▓"
    } else if shape.level == 1 {
        "▒"
    } else {
        "░"
    };
    proof {
        reveal_strlit("█");
        reveal_strlit("▓");
        reveal_strlit("▒");
        reveal_strlit("░");
        assert(block@ =~= seq![heat_block(shape.level)]);
        assert("░"@ =~= seq!['░']);
    }
    let mut cell = repeat_str(block, shape.filled);
    let rest = repeat_str("░", BAR_WIDTH - shape.filled);
    push_str(&mut cell, rest.as_str());
    proof {
        assert(cell@ =~= heat_text(shape));
    }
    if shape.level >= 3 {
        red_bold(cell.as_str())
    } else if shape.level == 2 {
        yellow(cell.as_str())
    } else if shape.level == 1 {
        cyan(cell.as_str())
    } else {
        dimmed(cell.as_str())
    }
}

/// One row of the resource heatmap: a hotspot's location, its CPU and memory
/// use, and the shapes of its read and write cells.
#[derive(Debug, Clone)]
pub struct HeatmapRow {
    pub location: String,
    pub cpu_instructions: u64,
    pub memory_bytes: u64,
    pub reads: HeatShape,
    pub writes: HeatShape,
}

/// The largest CPU use among the rows, at least 1.
pub open spec fn max_cpu(rows: Seq<HeatmapRow>) -> nat
    decreases rows.len(),
{
    if rows.len() == 0 {
        1
    } else {
        let m = max_cpu(rows.drop_last());
        if rows.last().cpu_instructions > m {
            rows.last().cpu_instructions as nat
        } else {
            m
        }
    }
}

/// The largest memory use among the rows, at least 1.
pub open spec fn max_mem(rows: Seq<HeatmapRow>) -> nat
    decreases rows.len(),
{
    if rows.len() == 0 {
        1
    } else {
        let m = max_mem(rows.drop_last());
        if rows.last().memory_bytes > m {
            rows.last().memory_bytes as nat
        } else {
            m
        }
    }
}

/// The width of the label column: the longest location in bytes, at least 8.
pub open spec fn label_width(rows: Seq<HeatmapRow>) -> nat
    decreases rows.len(),
{
    if rows.len() == 0 {
        8
    } else {
        let m = label_width(rows.drop_last());
        let l = encode_utf8(rows.last().location@).len();
        if l > m {
            l
        } else {
            m
        }
    }
}

pub open spec fn column_header(lw: nat) -> Seq<char> {
    "  "@ + pad_right("Function"@, lw) + "  "@ + pad_right("CPU"@, 12) + "  "@ + pad_right(
        "Memory"@,
        12,
    ) + "  "@ + pad_right("Reads"@, 12) + "  "@ + pad_right("Writes"@, 12) + nl()
}

pub open spec fn rule_line(lw: nat) -> Seq<char> {
    "  "@ + repeat(seq!['-'], lw + 62) + nl()
}

/// The shape of the cell for `value` against the column maximum `max`.
pub open spec fn shape_of(value: nat, max: nat) -> HeatShape {
    HeatShape { level: heat_level(value, max), filled: round_tenths(value, max) as usize }
}

/// The four styled cells of a row.
pub open spec fn cells_ok(cells: Seq<Seq<char>>, row: HeatmapRow, mc: nat, mm: nat) -> bool {
    let c = shape_of(row.cpu_instructions as nat, mc);
    let m = shape_of(row.memory_bytes as nat, mm);
    &&& cells.len() == 4
    &&& styled(cells[0], heat_text(c), heat_code(c.level))
    &&& styled(cells[1], heat_text(m), heat_code(m.level))
    &&& styled(cells[2], heat_text(row.reads), heat_code(row.reads.level))
    &&& styled(cells[3], heat_text(row.writes), heat_code(row.writes.level))
}

pub open spec fn row_text(row: HeatmapRow, cells: Seq<Seq<char>>, lw: nat) -> Seq<char> {
    "  "@ + pad_right(row.location@, lw) + "  "@ + cells[0] + "  "@ + cells[1] + "  "@ + cells[2]
        + "  "@ + cells[3] + nl()
}

pub open spec fn rows_text(rows: Seq<HeatmapRow>, cells: Seq<Seq<Seq<char>>>, lw: nat) -> Seq<char>
    decreases rows.len(),
{
    if rows.len() == 0 {
        Seq::empty()
    } else {
        rows_text(rows.drop_last(), cells.drop_last(), lw) + row_text(rows.last(), cells.last(), lw)
    }
}

pub open spec fn legend_text(a: Seq<char>, b: Seq<char>, c: Seq<char>, d: Seq<char>) -> Seq<char> {
    "  Legend: "@ + a + " cold  "@ + b + " low  "@ + c + " medium  "@ + d + " hot\n"@
}

pub open spec fn legend_ok(a: Seq<char>, b: Seq<char>, c: Seq<char>, d: Seq<char>) -> bool {
    &&& styled(a, repeat(seq!['░'], 10), code_dimmed())
    &&& styled(b, repeat(seq!['▒'], 10), code_cyan())
    &&& styled(c, repeat(seq!['▓'], 10), code_yellow())
    &&& styled(d, repeat(seq!['█'], 10), code_red_bold())
}

/// `r` is the heatmap of `rows` (not empty), with `h` its header, `cells`
/// the styled cells of each row and `lg` the styled legend samples.
pub open spec fn heatmap_parts(
    r: Seq<char>,
    h: Seq<char>,
    cells: Seq<Seq<Seq<char>>>,
    lg: Seq<Seq<char>>,
    rows: Seq<HeatmapRow>,
) -> bool {
    let lw = label_width(rows);
    &&& is_section_header(h, "Resource Heatmap"@)
    &&& cells.len() == rows.len()
    &&& forall|j: int| 0 <= j < rows.len() ==> cells_ok(#[trigger] cells[j], rows[j], max_cpu(rows), max_mem(rows))
    &&& lg.len() == 4
    &&& legend_ok(lg[0], lg[1], lg[2], lg[3])
    &&& r == h + nl() + column_header(lw) + rule_line(lw) + rows_text(rows, cells, lw) + nl()
        + legend_text(lg[0], lg[1], lg[2], lg[3])
}

/// `r` is the heatmap of no rows: the header and a note.
pub open spec fn empty_heatmap_parts(r: Seq<char>, h: Seq<char>, d: Seq<char>) -> bool {
    &&& is_section_header(h, "Resource Heatmap"@)
    &&& styled(d, "No hotspot data available."@, code_dimmed())
    &&& r == h + nl() + "  "@ + d + nl()
}

proof fn lemma_max_cpu_bounds(rows: Seq<HeatmapRow>)
    ensures
        max_cpu(rows) >= 1,
        max_cpu(rows) <= u64::MAX,
        forall|j: int| 0 <= j < rows.len() ==> (#[trigger] rows[j]).cpu_instructions <= max_cpu(rows),
    decreases rows.len(),
{
    if rows.len() > 0 {
        lemma_max_cpu_bounds(rows.drop_last());
        assert forall|j: int| 0 <= j < rows.len() implies (#[trigger] rows[j]).cpu_instructions <= max_cpu(rows) by {
            if j < rows.len() - 1 {
                assert(rows[j] == rows.drop_last()[j]);
            }
        }
    }
}

proof fn lemma_max_mem_bounds(rows: Seq<HeatmapRow>)
    ensures
        max_mem(rows) >= 1,
        max_mem(rows) <= u64::MAX,
        forall|j: int| 0 <= j < rows.len() ==> (#[trigger] rows[j]).memory_bytes <= max_mem(rows),
    decreases rows.len(),
{
    if rows.len() > 0 {
        lemma_max_mem_bounds(rows.drop_last());
        assert forall|j: int| 0 <= j < rows.len() implies (#[trigger] rows[j]).memory_bytes <= max_mem(rows) by {
            if j < rows.len() - 1 {
                assert(rows[j] == rows.drop_last()[j]);
            }
        }
    }
}

proof fn lemma_label_width_bounds(rows: Seq<HeatmapRow>)
    ensures
        label_width(rows) >= 8,
        forall|j: int| 0 <= j < rows.len() ==> encode_utf8((#[trigger] rows[j]).location@).len() <= label_width(rows),
    decreases rows.len(),
{
    if rows.len() > 0 {
        lemma_label_width_bounds(rows.drop_last());
        assert forall|j: int| 0 <= j < rows.len() implies encode_utf8((#[trigger] rows[j]).location@).len() <= label_width(rows) by {
            if j < rows.len() - 1 {
                assert(rows[j] == rows.drop_last()[j]);
            }
        }
    }
}

/// The column maxima and the label width of the rows.
fn heatmap_measures(rows: &Vec<HeatmapRow>) -> (m: (u64, u64, usize))
    requires
        label_width(rows@) + 62 <= usize::MAX,
    ensures
        m.0 == max_cpu(rows@),
        m.1 == max_mem(rows@),
        m.2 == label_width(rows@),
{
    let mut max_c: u64 = 1;
    let mut max_m: u64 = 1;
    let mut lw: usize = 8;
    let mut k: usize = 0;
    proof {
        lemma_label_width_bounds(rows@);
    }
    while k < rows.len()
        invariant
            k <= rows@.len(),
            label_width(rows@) + 62 <= usize::MAX,
            forall|j: int| 0 <= j < rows@.len() ==> encode_utf8((#[trigger] rows@[j]).location@).len() <= label_width(rows@),
            max_c == max_cpu(rows@.take(k as int)),
            max_m == max_mem(rows@.take(k as int)),
            lw == label_width(rows@.take(k as int)),
        decreases rows.len() - k,
    {
        proof {
            assert(rows@.take(k + 1).drop_last() =~= rows@.take(k as int));
            assert(rows@.take(k + 1).last() == rows@[k as int]);
        }
        if rows[k].cpu_instructions > max_c {
            max_c = rows[k].cpu_instructions;
        }
        if rows[k].memory_bytes > max_m {
            max_m = rows[k].memory_bytes;
        }
        let l = rows[k].location.as_str().len();
        proof {
            assert(encode_utf8(rows@[k as int].location@).len() <= label_width(rows@));
        }
        if l > lw {
            lw = l;
        }
        k = k + 1;
    }
    proof {
        assert(rows@.take(rows@.len() as int) =~= rows@);
    }
    (max_c, max_m, lw)
}

/// The column titles and the rule under them.
fn heatmap_columns(lw: usize) -> (s: String)
    requires
        lw + 62 <= usize::MAX,
    ensures
        s@ == column_header(lw as nat) + rule_line(lw as nat),
{
    let mut out = String::new();
    push_str(&mut out, "  ");
    let f = pad_right_str("Function", lw);
    push_str(&mut out, f.as_str());
    push_str(&mut out, "  ");
    let c1 = pad_right_str("CPU", 12);
    push_str(&mut out, c1.as_str());
    push_str(&mut out, "  ");
    let c2 = pad_right_str("Memory", 12);
    push_str(&mut out, c2.as_str());
    push_str(&mut out, "  ");
    let c3 = pad_right_str("Reads", 12);
    push_str(&mut out, c3.as_str());
    push_str(&mut out, "  ");
    let c4 = pad_right_str("Writes", 12);
    push_str(&mut out, c4.as_str());
    push_str(&mut out, "\n");
    push_str(&mut out, "  ");
    let dashes = repeat_str("-", lw + 62);
    push_str(&mut out, dashes.as_str());
    push_str(&mut out, "\n");
    proof {
        reveal_strlit("\n");
        reveal_strlit("-");
        assert("-"@ =~= seq!['-']);
        assert("\n"@ =~= nl());
        assert(out@ =~= column_header(lw as nat) + rule_line(lw as nat));
    }
    out
}

/// One data row of the heatmap, with its styled cells.
fn heatmap_row(row: &HeatmapRow, max_c: u64, max_m: u64, lw: usize) -> (r: (String, Ghost<Seq<Seq<char>>>))
    requires
        max_c >= 1,
        max_m >= 1,
        row.cpu_instructions <= max_c,
        row.memory_bytes <= max_m,
        row.reads.filled <= 10,
        row.writes.filled <= 10,
    ensures
        cells_ok(r.1@, *row, max_c as nat, max_m as nat),
        r.0@ == row_text(*row, r.1@, lw as nat),
{
    let cpu_cell = heat_cell(heat_shape(row.cpu_instructions, max_c));
    let mem_cell = heat_cell(heat_shape(row.memory_bytes, max_m));
    let read_cell = heat_cell(row.reads);
    let write_cell = heat_cell(row.writes);
    let ghost row_cells = seq![cpu_cell@, mem_cell@, read_cell@, write_cell@];
    let mut out = String::new();
    push_str(&mut out, "  ");
    let label = pad_right_str(row.location.as_str(), lw);
    push_str(&mut out, label.as_str());
    push_str(&mut out, "  ");
    push_str(&mut out, cpu_cell.as_str());
    push_str(&mut out, "  ");
    push_str(&mut out, mem_cell.as_str());
    push_str(&mut out, "  ");
    push_str(&mut out, read_cell.as_str());
    push_str(&mut out, "  ");
    push_str(&mut out, write_cell.as_str());
    push_str(&mut out, "\n");
    proof {
        reveal_strlit("\n");
        assert("\n"@ =~= nl());
        assert(out@ =~= row_text(*row, row_cells, lw as nat));
    }
    (out, Ghost(row_cells))
}

/// The legend line, with its styled samples.
fn heatmap_legend() -> (r: (String, Ghost<Seq<Seq<char>>>))
    ensures
        r.1@.len() == 4,
        legend_ok(r.1@[0], r.1@[1], r.1@[2], r.1@[3]),
        r.0@ == legend_text(r.1@[0], r.1@[1], r.1@[2], r.1@[3]),
{
    let a = dimmed("░░░░░░░░░░");
    let b = cyan("▒▒▒▒▒▒▒▒▒▒");
    let c = yellow("▓▓▓▓▓▓▓▓▓▓");
    let d = red_bold("██████████");
    let mut out = String::new();
    push_str(&mut out, "  Legend: ");
    push_str(&mut out, a.as_str());
    push_str(&mut out, " cold  ");
    push_str(&mut out, b.as_str());
    push_str(&mut out, " low  ");
    push_str(&mut out, c.as_str());
    push_str(&mut out, " medium  ");
    push_str(&mut out, d.as_str());
    push_str(&mut out, " hot\n");
    proof {
        reveal_strlit("░░░░░░░░░░");
        reveal_strlit("▒▒▒▒▒▒▒▒▒▒");
        reveal_strlit("▓▓▓▓▓▓▓▓▓▓");
        reveal_strlit("██████████");
        reveal_with_fuel(repeat, 11);
        assert("░░░░░░░░░░"@ =~= repeat(seq!['░'], 10));
        assert("▒▒▒▒▒▒▒▒▒▒"@ =~= repeat(seq!['▒'], 10));
        assert("▓▓▓▓▓▓▓▓▓▓"@ =~= repeat(seq!['▓'], 10));
        assert("██████████"@ =~= repeat(seq!['█'], 10));
        assert(!"░░░░░░░░░░"@.contains('\u{1b}'));
        assert(!"▒▒▒▒▒▒▒▒▒▒"@.contains('\u{1b}'));
        assert(!"▓▓▓▓▓▓▓▓▓▓"@.contains('\u{1b}'));
        assert(!"██████████"@.contains('\u{1b}'));
    }
    let ghost lg = seq![a@, b@, c@, d@];
    (out, Ghost(lg))
}

/// Render a resource heatmap grid: one row per hotspot location, columns
/// CPU, Memory, Reads and Writes; CPU and memory intensity is relative to
/// the hottest value in the column.
pub fn render_heatmap(rows: &Vec<HeatmapRow>) -> (r: String)
    requires
        label_width(rows@) + 62 <= usize::MAX,
        forall|j: int| 0 <= j < rows@.len() ==> (#[trigger] rows@[j]).reads.filled <= 10 && rows@[j].writes.filled <= 10,
    ensures
        rows@.len() == 0 ==> exists|h: Seq<char>, d: Seq<char>| #[trigger] empty_heatmap_parts(r@, h, d),
        rows@.len() > 0 ==> exists|h: Seq<char>, cells: Seq<Seq<Seq<char>>>, lg: Seq<Seq<char>>|
            #[trigger] heatmap_parts(r@, h, cells, lg, rows@),
{
    let header = render_section_header("Resource Heatmap");
    if rows.len() == 0 {
        let d = dimmed("No hotspot data available.");
        let mut r = String::new();
        push_str(&mut r, header.as_str());
        push_str(&mut r, "\n  ");
        push_str(&mut r, d.as_str());
        push_str(&mut r, "\n");
        proof {
            reveal_strlit("\n  ");
            reveal_strlit("\n");
            reveal_strlit("  ");
            reveal_strlit("No hotspot data available.");
            assert(!"No hotspot data available."@.contains('\u{1b}'));
            assert(r@ =~= header@ + nl() + "  "@ + d@ + nl());
            assert(empty_heatmap_parts(r@, header@, d@));
        }
        return r;
    }
    let (max_c, max_m, lw) = heatmap_measures(rows);
    proof {
        lemma_max_cpu_bounds(rows@);
        lemma_max_mem_bounds(rows@);
    }
    let mut out = String::new();
    push_str(&mut out, header.as_str());
    push_char(&mut out, '\n');
    let cols = heatmap_columns(lw);
    push_str(&mut out, cols.as_str());
    let ghost prefix = out@;
    let ghost mut cells: Seq<Seq<Seq<char>>> = Seq::empty();
    let mut j: usize = 0;
    while j < rows.len()
        invariant
            j <= rows@.len(),
            max_c == max_cpu(rows@),
            max_m == max_mem(rows@),
            max_c >= 1,
            max_m >= 1,
            lw == label_width(rows@),
            forall|i: int| 0 <= i < rows@.len() ==> (#[trigger] rows@[i]).cpu_instructions <= max_c,
            forall|i: int| 0 <= i < rows@.len() ==> (#[trigger] rows@[i]).memory_bytes <= max_m,
            forall|i: int| 0 <= i < rows@.len() ==> (#[trigger] rows@[i]).reads.filled <= 10 && rows@[i].writes.filled <= 10,
            cells.len() == j,
            forall|i: int| 0 <= i < j ==> cells_ok(#[trigger] cells[i], rows@[i], max_c as nat, max_m as nat),
            out@ == prefix + rows_text(rows@.take(j as int), cells, lw as nat),
        decreases rows.len() - j,
    {
        let (line, Ghost(row_cells)) = heatmap_row(&rows[j], max_c, max_m, lw);
        push_str(&mut out, line.as_str());
        proof {
            let old_cells = cells;
            cells = cells.push(row_cells);
            assert(rows@.take(j + 1).drop_last() =~= rows@.take(j as int));
            assert(rows@.take(j + 1).last() == rows@[j as int]);
            assert(cells.drop_last() =~= old_cells);
            assert(cells.last() == row_cells);
            assert forall|i: int| 0 <= i < j + 1 implies cells_ok(#[trigger] cells[i], rows@[i], max_c as nat, max_m as nat) by {
                if i < j {
                    assert(cells[i] == old_cells[i]);
                }
            }
            assert(out@ =~= prefix + rows_text(rows@.take(j + 1), cells, lw as nat));
        }
        j = j + 1;
    }
    proof {
        assert(rows@.take(rows@.len() as int) =~= rows@);
    }
    push_char(&mut out, '\n');
    let (legend, Ghost(lg)) = heatmap_legend();
    push_str(&mut out, legend.as_str());
    proof {
        assert(out@ =~= header@ + nl() + column_header(lw as nat) + rule_line(lw as nat) + rows_text(
            rows@,
            cells,
            lw as nat,
        ) + nl() + legend_text(lg[0], lg[1], lg[2], lg[3]));
        assert(heatmap_parts(out@, header@, cells, lg, rows@));
    }
    out
}

/// The text `tabled` renders for a table whose first record is the header
/// (`tabled::builder::Builder::from(records).build().to_string()`).
pub uninterp spec fn table_text(records: Seq<Seq<Seq<char>>>) -> Seq<char>;

/// `tabled::builder::Builder::from(records).build().to_string()`: the
/// default-styled table of the records, the first of them as its header.
#[verifier::external_body]
fn render_table(records: Vec<Vec<String>>) -> (r: String)
    ensures
        r@ == table_text(records.deep_view()),
{
    tabled::builder::Builder::from(records).build().to_string()
}

/// The records of the argument table: a header, then each argument with its
/// 1-based position.
pub open spec fn argument_records(args: Seq<Seq<char>>) -> Seq<Seq<Seq<char>>> {
    seq![seq!["Argument"@, "Value"@]] + Seq::new(
        args.len(),
        |i: int| seq![decimal((i + 1) as nat), args[i]],
    )
}

/// The context table: nothing without arguments; else the function name
/// line when known, `Arguments:`, and the table.
pub open spec fn context_table_spec(function_name: Option<Seq<char>>, args: Seq<Seq<char>>) -> Seq<char> {
    if args.len() == 0 {
        Seq::empty()
    } else {
        (match function_name {
            Some(f) => "Function: "@ + f + nl(),
            None => Seq::empty(),
        }) + "Arguments:\n"@ + table_text(argument_records(args))
    }
}

/// Renders decoded contract arguments as a table with columns Argument and
/// Value.
pub fn render_context_table(context: &TransactionContext) -> (r: String)
    ensures
        r@ == context_table_spec(
            opt_view(context.function_name),
            context.arguments@.map_values(|a: String| a@),
        ),
{
    let ghost args = context.arguments@.map_values(|a: String| a@);
    if context.arguments.len() == 0 {
        return String::new();
    }
    let mut records: Vec<Vec<String>> = Vec::new();
    records.push(vec![String::from_str("Argument"), String::from_str("Value")]);
    proof {
        assert(records.deep_view() =~~= argument_records(args.take(0)));
    }
    let mut k: usize = 0;
    while k < context.arguments.len()
        invariant
            k <= context.arguments@.len(),
            args == context.arguments@.map_values(|a: String| a@),
            records.deep_view() == argument_records(args.take(k as int)),
        decreases context.arguments.len() - k,
    {
        proof {
            assert(k + 1 <= u64::MAX);
        }
        let index = u64_to_decimal((k + 1) as u64);
        let value = context.arguments[k].clone();
        let row = vec![index, value];
        let ghost before = records.deep_view();
        records.push(row);
        proof {
            assert(args.take(k + 1)[k as int] == args[k as int]);
            assert(args[k as int] == context.arguments@[k as int]@);
            assert(row.deep_view() =~= seq![decimal((k + 1) as nat), args[k as int]]);
            assert(records.deep_view() =~= before.push(row.deep_view()));
            assert(argument_records(args.take(k + 1)) =~= argument_records(args.take(k as int)).push(
                seq![decimal((k + 1) as nat), args[k as int]],
            ));
        }
        k = k + 1;
    }
    proof {
        assert(args.take(k as int) =~= args);
    }
    let table = render_table(records);
    let mut out = String::new();
    match &context.function_name {
        Some(f) => {
            push_str(&mut out, "Function: ");
            push_str(&mut out, f.as_str());
            push_char(&mut out, '\n');
        },
        None => {},
    }
    push_str(&mut out, "Arguments:\n");
    push_str(&mut out, table.as_str());
    proof {
        assert(out@ =~= context_table_spec(opt_view(context.function_name), args));
    }
    out
}

} // verus!
