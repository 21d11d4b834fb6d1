//! Narrowing a transaction's events to one operation before its error is
//! decoded.
use vstd::prelude::*;

verus! {

/// The event lists of a fetched transaction that operation filtering
/// touches; `None` where the transaction holds no such list.
pub struct TransactionEvents<T> {
    /// `events.contractEventsXdr`: one entry per operation.
    pub contract_events: Option<Vec<T>>,
    /// `diagnosticEventsXdr`.
    pub diagnostic_events: Option<Vec<T>>,
}

/// The contract events kept for operation `op_index`: that operation's
/// entry alone, or nothing when there is no such operation.
pub open spec fn kept_contract_events<T>(s: Seq<T>, op_index: usize) -> Seq<T> {
    if op_index < s.len() {
        seq![s[op_index as int]]
    } else {
        Seq::empty()
    }
}

/// The diagnostic events kept for operation `op_index`: the first event
/// (the main invocation) for the first operation, nothing otherwise, since
/// diagnostic events cannot be attributed to later operations.
pub open spec fn kept_diagnostic_events<T>(s: Seq<T>, op_index: usize) -> Seq<T> {
    if op_index == 0 && s.len() > 0 {
        seq![s[0]]
    } else {
        Seq::empty()
    }
}

fn keep_only<T>(events: &mut Vec<T>, i: usize)
    requires
        i < old(events)@.len(),
    ensures
        final(events)@ == seq![old(events)@[i as int]],
{
    let item = events.remove(i);
    events.clear();
    events.push(item);
}

/// Filters the transaction's events to focus on operation `op_index`.
pub fn filter_transaction_by_operation<T>(tx: &mut TransactionEvents<T>, op_index: usize)
    ensures
        match old(tx).contract_events {
            Some(v) => final(tx).contract_events matches Some(w) && w@ == kept_contract_events(
                v@,
                op_index,
            ),
            None => final(tx).contract_events is None,
        },
        match old(tx).diagnostic_events {
            Some(v) => final(tx).diagnostic_events matches Some(w) && w@ == kept_diagnostic_events(
                v@,
                op_index,
            ),
            None => final(tx).diagnostic_events is None,
        },
        match old(tx).contract_events {
            Some(v) => op_index < v@.len() ==> (final(tx).contract_events matches Some(w) && w@.len()
                == 1 && w@[0] == v@[op_index as int]),
            None => true,
        },
{
    match &mut tx.contract_events {
        Some(events) => {
            if op_index < events.len() {
                keep_only(events, op_index);
            } else {
                events.clear();
            }
        },
        None => {},
    }
    match &mut tx.diagnostic_events {
        Some(events) => {
            if op_index == 0 && events.len() > 0 {
                keep_only(events, 0);
            } else {
                events.clear();
            }
        },
        None => {},
    }
}


/// Filtering to an operation that exists keeps exactly that operation's
/// event, counted from the front: the list is its events before the
/// operation, the kept event, and its events after the operation. Filtering
/// to an operation past the end keeps nothing.
pub proof fn law_filter_keeps_the_operations_event<T>(s: Seq<T>, op_index: usize)
    ensures
        op_index < s.len() ==> kept_contract_events(s, op_index).len() == 1
            && kept_contract_events(s, op_index)[0] == s[op_index as int] && s.take(
            op_index as int,
        ) + kept_contract_events(s, op_index) + s.skip(op_index + 1) == s,
        op_index >= s.len() ==> kept_contract_events(s, op_index).len() == 0,
{
    if op_index < s.len() {
        assert(s.take(op_index as int) + kept_contract_events(s, op_index) + s.skip(op_index + 1)
            =~= s);
    }
}

/// Only the first operation keeps a diagnostic event, and then exactly the
/// first one.
pub proof fn law_diagnostics_kept_for_first_operation_only<T>(s: Seq<T>, op_index: usize)
    ensures
        op_index == 0 && s.len() > 0 ==> kept_diagnostic_events(s, op_index).len() == 1
            && kept_diagnostic_events(s, op_index)[0] == s[0],
        op_index != 0 || s.len() == 0 ==> kept_diagnostic_events(s, op_index).len() == 0,
{
}

} // verus!
