//! Transaction context attached to diagnostic reports: fees, resource use,
//! and the decoded invocation.
use vstd::prelude::*;
use vstd::string::*;
use crate::text::{decimal, push_str};

verus! {

/// Fee breakdown of a transaction, in stroops.
#[derive(Debug, Clone)]
pub struct FeeBreakdown {
    pub inclusion_fee: i64,
    pub resource_fee: i64,
    pub refundable_fee: i64,
    pub non_refundable_fee: i64,
}

/// Resource use of a transaction against its limits.
#[derive(Debug, Clone)]
pub struct ResourceSummary {
    pub cpu_instructions_used: u64,
    pub cpu_instructions_limit: u64,
    pub memory_bytes_used: u64,
    pub memory_bytes_limit: u64,
    pub read_bytes: u64,
    pub write_bytes: u64,
}

/// The decoded context of a transaction.
#[derive(Debug, Clone)]
pub struct TransactionContext {
    pub tx_hash: String,
    pub ledger_sequence: u32,
    pub function_name: Option<String>,
    pub arguments: Vec<String>,
    pub fee: FeeBreakdown,
    pub resources: ResourceSummary,
}

/// The decimal rendering of an integer, with a leading `-` when negative.
pub open spec fn signed_decimal(v: int) -> Seq<char> {
    if v < 0 {
        seq!['-'] + decimal((-v) as nat)
    } else {
        decimal(v as nat)
    }
}

/// Renders a signed integer in decimal.
pub fn i64_to_decimal(v: i64) -> (s: String)
    ensures
        s@ == signed_decimal(v as int),
{
    if v < 0 {
        let magnitude: u64 = ((-(v as i128)) as u64);
        let digits = crate::text::u64_to_decimal(magnitude);
        let mut s = String::new();
        crate::text::push_char(&mut s, '-');
        push_str(&mut s, digits.as_str());
        s
    } else {
        crate::text::u64_to_decimal(v as u64)
    }
}

/// `"<v> stroops"`, or `"N/A"` when the value is unknown.
pub open spec fn fee_text(v: Option<int>) -> Seq<char> {
    match v {
        Some(x) => signed_decimal(x) + " stroops"@,
        None => "N/A"@,
    }
}

/// `"Yes"` / `"No"` for a known surge, `"N/A"` otherwise.
pub open spec fn surge_text(v: Option<bool>) -> Seq<char> {
    match v {
        Some(true) => "Yes"@,
        Some(false) => "No"@,
        None => "N/A"@,
    }
}

/// The amounts of the fee breakdown: (bid, total charged, resource,
/// inclusion, surge). The bid is not part of the decoded report, so it and
/// the surge derived from it are unknown; the total is the inclusion plus
/// resource fee (unknown on overflow), and the inclusion fee is recovered
/// as total minus resource fee.
pub open spec fn fee_amounts(fee: Option<(i64, i64)>) -> (Option<int>, Option<int>, Option<int>, Option<int>, Option<bool>) {
    match fee {
        Some((inclusion, resource)) => {
            let total = inclusion + resource;
            if i64::MIN <= total <= i64::MAX {
                (None, Some(total), Some(resource as int), Some(total - resource), None)
            } else {
                (None, None, Some(resource as int), None, None)
            }
        },
        None => (None, None, None, None, None),
    }
}

pub open spec fn fee_lines_spec(fee: Option<(i64, i64)>) -> Seq<Seq<char>> {
    let (bid, total, resource, inclusion, surge) = fee_amounts(fee);
    seq![
        "FEE BREAKDOWN"@,
        "Bid Fee: "@ + fee_text(bid),
        "Total Charged Fee: "@ + fee_text(total),
        "Resource Fee: "@ + fee_text(resource),
        "Inclusion Fee: "@ + fee_text(inclusion),
        "Surge: "@ + surge_text(surge),
    ]
}

fn fee_line(label: &str, v: Option<i64>) -> (s: String)
    ensures
        s@ == label@ + fee_text(match v {
            Some(x) => Some(x as int),
            None => None,
        }),
{
    let mut s = String::from_str(label);
    match v {
        Some(x) => {
            let d = i64_to_decimal(x);
            push_str(&mut s, d.as_str());
            push_str(&mut s, " stroops");
        },
        None => {
            push_str(&mut s, "N/A");
        },
    }
    s
}

/// The lines of the fee breakdown section for a transaction's fees, if known.
pub fn fee_breakdown_lines(fee: Option<&FeeBreakdown>) -> (lines: Vec<String>)
    ensures
        lines@.map_values(|l: String| l@) == fee_lines_spec(match fee {
            Some(f) => Some((f.inclusion_fee, f.resource_fee)),
            None => None,
        }),
{
    let bid_fee: Option<i64> = None;
    let resource_fee: Option<i64> = match fee {
        Some(f) => Some(f.resource_fee),
        None => None,
    };
    let total_charged_fee: Option<i64> = match fee {
        Some(f) => f.inclusion_fee.checked_add(f.resource_fee),
        None => None,
    };
    let inclusion_fee: Option<i64> = match (total_charged_fee, resource_fee) {
        (Some(charged), Some(resource)) => charged.checked_sub(resource),
        _ => None,
    };
    let surge: Option<bool> = match (total_charged_fee, bid_fee) {
        (Some(charged), Some(bid)) => Some(charged > bid),
        _ => None,
    };
    let mut surge_line = String::from_str("Surge: ");
    match surge {
        Some(true) => push_str(&mut surge_line, "Yes"),
        Some(false) => push_str(&mut surge_line, "No"),
        None => push_str(&mut surge_line, "N/A"),
    }
    let lines = vec![
        String::from_str("FEE BREAKDOWN"),
        fee_line("Bid Fee: ", bid_fee),
        fee_line("Total Charged Fee: ", total_charged_fee),
        fee_line("Resource Fee: ", resource_fee),
        fee_line("Inclusion Fee: ", inclusion_fee),
        surge_line,
    ];
    proof {
        let ghost spec_fee = match fee {
            Some(f) => Some((f.inclusion_fee, f.resource_fee)),
            None => None,
        };
        assert(lines@.map_values(|l: String| l@) =~= fee_lines_spec(spec_fee));
    }
    lines
}

} // verus!
