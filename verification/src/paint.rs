//! Terminal styling through the `colored` crate.
//!
//! Whether `colored` emits ANSI escapes depends on the environment (a
//! terminal on stdout, `NO_COLOR`, `CLICOLOR`, ...), so each wrapper states
//! what holds either way: the text comes back unchanged, or between the
//! style's escape sequence (`ESC[` code `m`) and the reset sequence `ESC[0m`.
//! That holds for text without escape characters of its own.
use vstd::prelude::*;

verus! {

/// The reset sequence `colored` appends to styled text.
pub open spec fn reset_seq() -> Seq<char> {
    seq!['\u{1b}', '[', '0', 'm']
}

/// `s` between the escape sequence of style `code` and the reset sequence.
pub open spec fn colored_text(s: Seq<char>, code: Seq<char>) -> Seq<char> {
    seq!['\u{1b}', '['] + code + seq!['m'] + s + reset_seq()
}

/// `out` is how `colored` renders `s` in style `code`: `s` itself when
/// colors are off, else `s` wrapped in the style's escapes (when `s` holds no
/// escape character).
pub open spec fn styled(out: Seq<char>, s: Seq<char>, code: Seq<char>) -> bool {
    !s.contains('\u{1b}') ==> (out == s || out == colored_text(s, code))
}

pub open spec fn code_red_bold() -> Seq<char> {
    seq!['1', ';', '3', '1']
}

pub open spec fn code_red() -> Seq<char> {
    seq!['3', '1']
}

pub open spec fn code_yellow() -> Seq<char> {
    seq!['3', '3']
}

pub open spec fn code_green() -> Seq<char> {
    seq!['3', '2']
}

pub open spec fn code_cyan() -> Seq<char> {
    seq!['3', '6']
}

pub open spec fn code_cyan_bold() -> Seq<char> {
    seq!['1', ';', '3', '6']
}

pub open spec fn code_white_bold() -> Seq<char> {
    seq!['1', ';', '3', '7']
}

pub open spec fn code_dimmed() -> Seq<char> {
    seq!['2']
}

pub open spec fn code_bold() -> Seq<char> {
    seq!['1']
}

/// `s.red().bold().to_string()` from `colored`.
#[verifier::external_body]
pub(crate) fn red_bold(s: &str) -> (r: String)
    ensures
        styled(r@, s@, code_red_bold()),
{
    colored::Colorize::bold(colored::Colorize::red(s)).to_string()
}

/// `s.red().to_string()` from `colored`.
#[verifier::external_body]
pub(crate) fn red(s: &str) -> (r: String)
    ensures
        styled(r@, s@, code_red()),
{
    colored::Colorize::red(s).to_string()
}

/// `s.yellow().to_string()` from `colored`.
#[verifier::external_body]
pub(crate) fn yellow(s: &str) -> (r: String)
    ensures
        styled(r@, s@, code_yellow()),
{
    colored::Colorize::yellow(s).to_string()
}

/// `s.green().to_string()` from `colored`.
#[verifier::external_body]
pub(crate) fn green(s: &str) -> (r: String)
    ensures
        styled(r@, s@, code_green()),
{
    colored::Colorize::green(s).to_string()
}

/// `s.cyan().to_string()` from `colored`.
#[verifier::external_body]
pub(crate) fn cyan(s: &str) -> (r: String)
    ensures
        styled(r@, s@, code_cyan()),
{
    colored::Colorize::cyan(s).to_string()
}

/// `s.cyan().bold().to_string()` from `colored`.
#[verifier::external_body]
pub(crate) fn cyan_bold(s: &str) -> (r: String)
    ensures
        styled(r@, s@, code_cyan_bold()),
{
    colored::Colorize::bold(colored::Colorize::cyan(s)).to_string()
}

/// `s.white().bold().to_string()` from `colored`.
#[verifier::external_body]
pub(crate) fn white_bold(s: &str) -> (r: String)
    ensures
        styled(r@, s@, code_white_bold()),
{
    colored::Colorize::bold(colored::Colorize::white(s)).to_string()
}

/// `s.dimmed().to_string()` from `colored`.
#[verifier::external_body]
pub(crate) fn dimmed(s: &str) -> (r: String)
    ensures
        styled(r@, s@, code_dimmed()),
{
    colored::Colorize::dimmed(s).to_string()
}

/// `s.bold().to_string()` from `colored`.
#[verifier::external_body]
pub(crate) fn bold(s: &str) -> (r: String)
    ensures
        styled(r@, s@, code_bold()),
{
    colored::Colorize::bold(s).to_string()
}

} // verus!
