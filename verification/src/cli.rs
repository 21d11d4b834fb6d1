//! Command-line front end: the arguments of each command, verbosity, URL
//! validation, and the messages the commands print.
use vstd::prelude::*;
use vstd::string::*;
use vstd::utf8::{decode_utf8, encode_utf8, is_char_boundary};
use crate::text::{decimal, push_str, u64_to_decimal};

verus! {

broadcast use vstd::string::group_string_axioms;

/// Arguments of `db`.
#[derive(Debug)]
pub struct DbArgs {
    pub command: DbCommands,
}

/// Subcommands of `db`.
#[derive(Debug)]
pub enum DbCommands {
    /// Update the taxonomy database to the latest version.
    Update,
    /// Show taxonomy database statistics.
    Stats,
    /// Search the taxonomy for an error.
    Search { query: String },
}

/// Arguments of `export`.
#[derive(Debug)]
pub struct ExportArgs {
    /// Transaction hash to export.
    pub tx_hash: String,
    /// Export format: test, json.
    pub format: String,
    /// Output file path.
    pub output: Option<String>,
}

/// Arguments of `inspect`.
#[derive(Debug)]
pub struct InspectArgs {
    /// Transaction hash to inspect.
    pub tx_hash: String,
    /// Show detailed fee breakdown including bid vs charged values.
    pub fee_stats: bool,
}

/// Arguments of `replay`.
#[derive(Debug)]
pub struct ReplayArgs {
    /// Transaction hash to replay interactively.
    pub tx_hash: String,
    /// Enable interactive mode (TUI).
    pub interactive: bool,
}

/// Arguments of `serve`.
#[derive(Debug)]
pub struct ServeArgs {
    /// Host interface for the local bridge.
    pub host: String,
    /// Port for the local bridge.
    pub port: u16,
}

/// Arguments of `trace`.
#[derive(Debug)]
pub struct TraceArgs {
    /// Transaction hash to trace.
    pub tx_hash: String,
    /// Output trace to a file instead of stdout.
    pub output_file: Option<String>,
}

/// Arguments of `whatif`.
#[derive(Debug)]
pub struct WhatifArgs {
    /// Transaction hash to re-simulate.
    pub tx_hash: String,
    /// Path to a JSON patch file with modifications.
    pub modify: Option<String>,
}

/// TUI application state.
#[derive(Debug)]
pub struct TuiState {
    pub tx_hash: String,
    pub selected_panel: Panel,
    pub scroll_offset: usize,
}

/// Active panel in the TUI.
#[derive(Clone, Copy, Debug, PartialEq, Eq)]
pub enum Panel {
    Timeline,
    Inspector,
    Controls,
}

/// How much the CLI logs.
#[derive(Debug, Clone, Copy, PartialEq, Eq)]
pub enum LogLevel {
    Warn,
    Debug,
    Trace,
}

pub open spec fn log_level_spec(verbose: u8) -> LogLevel {
    if verbose == 0 {
        LogLevel::Warn
    } else if verbose == 1 {
        LogLevel::Debug
    } else {
        LogLevel::Trace
    }
}

pub open spec fn level_name(l: LogLevel) -> Seq<char> {
    match l {
        LogLevel::Warn => "warn"@,
        LogLevel::Debug => "debug"@,
        LogLevel::Trace => "trace"@,
    }
}

/// The log level of the CLI's own crates: warnings by default, debug with
/// one `-v`, trace with more.
pub fn log_level(verbose: u8) -> (l: LogLevel)
    ensures
        l == log_level_spec(verbose),
{
    match verbose {
        0 => LogLevel::Warn,
        1 => LogLevel::Debug,
        _ => LogLevel::Trace,
    }
}

/// The filter directives for the CLI's own crates (`grat=<level>` and
/// `grat_core=<level>`); everything else logs warnings.
pub fn log_directives(verbose: u8) -> (d: Vec<String>)
    ensures
        d@.map_values(|s: String| s@) == seq![
            "grat="@ + level_name(log_level_spec(verbose)),
            "grat_core="@ + level_name(log_level_spec(verbose)),
        ],
{
    let name = match log_level(verbose) {
        LogLevel::Warn => "warn",
        LogLevel::Debug => "debug",
        LogLevel::Trace => "trace",
    };
    let mut a = String::from_str("grat=");
    push_str(&mut a, name);
    let mut b = String::from_str("grat_core=");
    push_str(&mut b, name);
    let d = vec![a, b];
    proof {
        assert(d@.map_values(|s: String| s@) =~= seq![
            "grat="@ + level_name(log_level_spec(verbose)),
            "grat_core="@ + level_name(log_level_spec(verbose)),
        ]);
    }
    d
}

/// Whether `url::Url::parse` accepts a text as an absolute URL.
pub uninterp spec fn url_parses(s: Seq<char>) -> bool;

/// `url::Url::parse(value).is_ok()`.
#[verifier::external_body]
fn parse_url_ok(value: &str) -> (b: bool)
    ensures
        b == url_parses(value@),
{
    url::Url::parse(value).is_ok()
}

/// Accepts a URL argument as given, or explains that it is not a URL.
pub fn validate_url(value: &str) -> (r: Result<String, String>)
    ensures
        url_parses(value@) ==> (r matches Ok(s) && s@ == value@),
        !url_parses(value@) ==> (r matches Err(e) && e@ == "Invalid URL: "@ + value@),
{
    if parse_url_ok(value) {
        Ok(String::from_str(value))
    } else {
        let mut e = String::from_str("Invalid URL: ");
        push_str(&mut e, value);
        Err(e)
    }
}

/// The number of leading bytes of a hash shown in messages: at most 8.
pub open spec fn short_len(s: &str) -> int {
    if s.spec_bytes().len() < 8 {
        s.spec_bytes().len() as int
    } else {
        8
    }
}

/// The first (up to) 8 bytes of a transaction hash, `&tx_hash[..8.min(len)]`.
pub fn short_hash(tx_hash: &str) -> (r: &str)
    requires
        is_char_boundary(tx_hash.spec_bytes(), short_len(tx_hash)),
    ensures
        r.spec_bytes() == tx_hash.spec_bytes().subrange(0, short_len(tx_hash)),
        r@ == decode_utf8(tx_hash.spec_bytes().subrange(0, short_len(tx_hash))),
{
    let n = tx_hash.as_bytes().len();
    proof {
        vstd::utf8::encode_utf8_valid_utf8(tx_hash@);
    }
    let k = if n < 8 {
        n
    } else {
        8
    };
    let (head, _) = tx_hash.split_at(k);
    proof {
        vstd::utf8::encode_utf8_decode_utf8(head@);
    }
    head
}

/// The file `export` writes to unless told otherwise:
/// `prism_test_<first 8 bytes of the hash>.rs`.
pub fn default_export_path(tx_hash: &str) -> (r: String)
    requires
        is_char_boundary(tx_hash.spec_bytes(), short_len(tx_hash)),
    ensures
        r@ == "prism_test_"@ + decode_utf8(tx_hash.spec_bytes().subrange(0, short_len(tx_hash)))
            + ".rs"@,
{
    let mut r = String::from_str("prism_test_");
    push_str(&mut r, short_hash(tx_hash));
    push_str(&mut r, ".rs");
    r
}

/// The lines `export` prints: what it exports, and where to.
pub fn export_messages(args: &ExportArgs, output_path: &str) -> (lines: Vec<String>)
    ensures
        lines@.map_values(|s: String| s@) == seq![
            "Exporting "@ + args.tx_hash@ + " as "@ + args.format@ + " format..."@,
            "Test case exported to "@ + output_path@,
        ],
{
    let mut a = String::from_str("Exporting ");
    push_str(&mut a, args.tx_hash.as_str());
    push_str(&mut a, " as ");
    push_str(&mut a, args.format.as_str());
    push_str(&mut a, " format...");
    let mut b = String::from_str("Test case exported to ");
    push_str(&mut b, output_path);
    let lines = vec![a, b];
    proof {
        assert(lines@.map_values(|s: String| s@) =~= seq![
            "Exporting "@ + args.tx_hash@ + " as "@ + args.format@ + " format..."@,
            "Test case exported to "@ + output_path@,
        ]);
    }
    lines
}

pub open spec fn replay_messages_spec(tx_hash: Seq<char>, interactive: bool) -> Seq<Seq<char>> {
    if interactive {
        seq!["Launching interactive TUI debugger for "@ + tx_hash + "..."@]
    } else {
        seq![
            "Use --interactive / -i to launch the TUI debugger."@,
            "Or use `prism trace "@ + tx_hash + "` for non-interactive trace output."@,
        ]
    }
}

/// The lines `replay` prints before (or instead of) launching the TUI.
pub fn replay_messages(args: &ReplayArgs) -> (lines: Vec<String>)
    ensures
        lines@.map_values(|s: String| s@) == replay_messages_spec(args.tx_hash@, args.interactive),
{
    if args.interactive {
        let mut a = String::from_str("Launching interactive TUI debugger for ");
        push_str(&mut a, args.tx_hash.as_str());
        push_str(&mut a, "...");
        let lines = vec![a];
        proof {
            assert(lines@.map_values(|s: String| s@) =~= replay_messages_spec(
                args.tx_hash@,
                args.interactive,
            ));
        }
        lines
    } else {
        let a = String::from_str("Use --interactive / -i to launch the TUI debugger.");
        let mut b = String::from_str("Or use `prism trace ");
        push_str(&mut b, args.tx_hash.as_str());
        push_str(&mut b, "` for non-interactive trace output.");
        let lines = vec![a, b];
        proof {
            assert(lines@.map_values(|s: String| s@) =~= replay_messages_spec(
                args.tx_hash@,
                args.interactive,
            ));
        }
        lines
    }
}

/// The address the bridge binds: `host:port`.
pub fn bind_address(args: &ServeArgs) -> (s: String)
    ensures
        s@ == args.host@ + ":"@ + decimal(args.port as nat),
{
    let mut s = String::from_str(args.host.as_str());
    push_str(&mut s, ":");
    let p = u64_to_decimal(args.port as u64);
    push_str(&mut s, p.as_str());
    s
}

} // verus!
