//! Soroban RPC wire types: the parameters of the calls the clients make and
//! the typed response of `simulateTransaction`.
use vstd::prelude::*;
use vstd::string::*;
use crate::error::{ErrorView, PrismError, PrismResult};
use crate::text::push_str;

verus! {

/// The JSON-RPC protocol version every request carries.
pub const JSON_RPC_VERSION: &'static str = "2.0";

/// JSON-RPC 2.0 request envelope; `T` is the method-specific params struct.
#[derive(Debug)]
pub struct JsonRpcRequest<T> {
    pub jsonrpc: &'static str,
    pub id: u64,
    pub method: &'static str,
    pub params: T,
}

impl<T> JsonRpcRequest<T> {
    /// Construct a request with the standard `"2.0"` version string.
    pub fn new(id: u64, method: &'static str, params: T) -> (r: Self)
        ensures
            r.jsonrpc@ == JSON_RPC_VERSION@,
            r.id == id,
            r.method == method,
            r.params == params,
    {
        Self { jsonrpc: JSON_RPC_VERSION, id, method, params }
    }
}

/// Params for `getTransaction`.
#[derive(Debug)]
pub struct GetTransactionParams {
    pub hash: String,
}

/// Params for `simulateTransaction`.
#[derive(Debug)]
pub struct SimulateTransactionParams {
    pub transaction: String,
}

/// Params for `getLedgerEntries`.
#[derive(Debug)]
pub struct GetLedgerEntriesParams {
    pub keys: Vec<String>,
}

/// Params for `getLatestLedger` and `getHealth` — the methods take no parameters.
#[derive(Debug)]
pub struct EmptyParams {}

/// Ledger footprint returned by `simulateTransaction`: the read-only and
/// read-write ledger keys, as base64-encoded XDR `LedgerKey` values.
#[derive(Debug, Clone)]
pub struct SimulateFootprint {
    /// Keys the transaction reads but does not modify.
    pub read_only: Vec<String>,
    /// Keys the transaction reads and may modify.
    pub read_write: Vec<String>,
}

/// Per-invocation authorization entry returned by `simulateTransaction`.
#[derive(Debug, Clone)]
pub struct SimulateAuthEntry {
    /// Base64-encoded XDR `SorobanAuthorizationEntry`.
    pub xdr: String,
}

/// Resource cost estimates returned by `simulateTransaction`.
#[derive(Debug, Clone)]
pub struct SimulateCost {
    /// CPU instruction count consumed.
    pub cpu_insns: String,
    /// Memory bytes consumed.
    pub mem_bytes: String,
}

/// Soroban resource limits and fees returned by `simulateTransaction`.
#[derive(Debug, Clone)]
pub struct SimulateSorobanData {
    /// Base64-encoded XDR `SorobanTransactionData` (footprint + resource limits).
    pub data: String,
    /// Minimum resource fee in stroops.
    pub min_resource_fee: String,
}

/// A single invocation result within a `simulateTransaction` response.
#[derive(Debug, Clone)]
pub struct SimulateResult {
    /// Base64-encoded XDR `ScVal` return value.
    pub xdr: String,
    /// Authorization entries required for this invocation.
    pub auth: Vec<String>,
}

/// Typed response from the `simulateTransaction` RPC method.
#[derive(Debug, Clone)]
pub struct SimulateTransactionResponse {
    /// Latest ledger sequence number at the time of simulation.
    pub latest_ledger: u32,
    /// Soroban resource data (footprint + fees) to attach to the transaction.
    pub soroban_data: Option<String>,
    /// Minimum resource fee in stroops required for submission.
    pub min_resource_fee: Option<String>,
    /// Authorization entries that must be signed before submission.
    pub auth: Vec<String>,
    /// Return values of the simulated invocation (base64 XDR `ScVal`).
    pub results: Vec<SimulateResult>,
    /// Error message if the simulation failed.
    pub error: Option<String>,
    /// Diagnostic events emitted during simulation.
    pub events: Vec<String>,
    /// Cost estimates for the simulation.
    pub cost: Option<SimulateCost>,
}

impl SimulateTransactionResponse {
    /// Returns `true` if the simulation completed without an error.
    pub fn is_success(&self) -> (b: bool)
        ensures
            b == (self.error is None),
    {
        self.error.is_none()
    }

    /// Convenience accessor for the first return value XDR, if present.
    pub fn return_value_xdr(&self) -> (r: Option<&str>)
        ensures
            self.results@.len() == 0 ==> r is None,
            self.results@.len() > 0 ==> (r matches Some(x) && x@ == self.results@[0].xdr@),
    {
        if self.results.len() > 0 {
            Some(self.results[0].xdr.as_str())
        } else {
            None
        }
    }
}

/// Surfaces a simulation-level error as an RPC error, as
/// `simulateTransaction` does before handing a response to its caller.
pub fn check_simulation(response: SimulateTransactionResponse) -> (r: PrismResult<
    SimulateTransactionResponse,
>)
    ensures
        match response.error {
            Some(e) => (r matches Err(x) && x@ == ErrorView::Rpc("simulateTransaction failed: "@ + e@)),
            None => r == Ok::<_, PrismError>(response),
        },
{
    match &response.error {
        Some(e) => {
            let mut m = String::from_str("simulateTransaction failed: ");
            push_str(&mut m, e.as_str());
            Err(PrismError::RpcError(m))
        },
        None => Ok(response),
    }
}

} // verus!
