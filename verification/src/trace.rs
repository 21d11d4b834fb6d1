//! Execution trace types — the output of the replay engine.
use vstd::prelude::*;
use std::collections::HashMap;

verus! {

/// A single host function call captured during replay.
#[derive(Debug, Clone)]
pub struct HostFunctionCall {
    /// Name of the host function (e.g., "storage::get", "auth::require").
    pub function_name: String,
    /// Decoded arguments to the host function.
    pub arguments: Vec<String>,
    /// Return value, if any.
    pub return_value: Option<String>,
    /// CPU instructions consumed by this call.
    pub cpu_instructions: u64,
    /// Memory bytes allocated by this call.
    pub memory_bytes: u64,
    /// Whether this call caused an error.
    pub is_error: bool,
    /// Error details if `is_error` is true.
    pub error: Option<String>,
}

/// A contract invocation in the execution tree.
#[derive(Debug)]
pub struct ContractInvocation {
    /// The contract address being invoked.
    pub contract_id: String,
    /// The function being called.
    pub function_name: String,
    /// Decoded arguments.
    pub arguments: Vec<String>,
    /// Return value, if the invocation succeeded.
    pub return_value: Option<String>,
    /// Host function calls made during this invocation.
    pub host_calls: Vec<HostFunctionCall>,
    /// Nested cross-contract invocations.
    pub sub_invocations: Vec<ContractInvocation>,
    /// Total CPU instructions consumed.
    pub total_cpu_instructions: u64,
    /// Total memory bytes allocated.
    pub total_memory_bytes: u64,
    /// Whether this invocation failed.
    pub is_error: bool,
}

/// A change to a single ledger entry.
#[derive(Debug, Clone)]
pub struct LedgerEntryDiff {
    /// The ledger key (decoded).
    pub key: String,
    /// Value before the transaction.
    pub before: Option<String>,
    /// Value after the transaction.
    pub after: Option<String>,
    /// Type of change.
    pub change_type: DiffChangeType,
}

/// Type of ledger entry change.
#[derive(Debug, Clone, Copy, PartialEq, Eq)]
pub enum DiffChangeType {
    Created,
    Updated,
    Deleted,
    Unchanged,
}

/// Complete state diff for a transaction.
#[derive(Debug, Clone)]
pub struct StateDiff {
    /// Individual entry changes.
    pub entries: Vec<LedgerEntryDiff>,
}

impl Default for StateDiff {
    fn default() -> (d: Self)
        ensures
            d.entries@.len() == 0,
    {
        StateDiff { entries: Vec::new() }
    }
}

/// A diagnostic event captured during replay.
#[derive(Debug, Clone)]
pub struct DiagnosticEvent {
    /// Event type/category.
    pub event_type: String,
    /// Event topics.
    pub topics: Vec<String>,
    /// Event data.
    pub data: HashMap<String, String>,
    /// Position in the execution timeline.
    pub timeline_position: usize,
}

} // verus!
