//! Error types for the Prism crate.
use vstd::prelude::*;
use vstd::string::*;
use crate::text::{decimal, push_str, u64_to_decimal};

verus! {

/// Top-level error type for all Prism operations.
#[derive(Debug)]
pub enum PrismError {
    /// Error communicating with the Soroban RPC endpoint.
    RpcError(String),
    /// Error fetching or parsing history archive data.
    ArchiveError(String),
    /// Error decoding XDR data.
    XdrError(String),
    /// Error parsing WASM or contract spec data.
    SpecError(String),
    /// Error in the local cache layer.
    CacheError(String),
    /// Error loading or querying the taxonomy database.
    TaxonomyError(String),
    /// Error during transaction replay.
    ReplayError(String),
    /// The requested transaction was not found.
    TransactionNotFound(String),
    /// The requested contract was not found on the ledger.
    ContractNotFound(String),
    /// An invalid network or configuration was provided.
    ConfigError(String),
    /// An invalid Stellar address was provided.
    InvalidAddress(String),
    /// Generic internal error.
    Internal(String),
    /// A JSON-RPC attempt did not complete before its deadline.
    NetworkTimeout { method: String, timeout_secs: u64 },
}

/// Convenience Result type for Prism operations.
pub type PrismResult<T> = Result<T, PrismError>;

/// The mathematical content of a [`PrismError`]: its variant and its text.
pub enum ErrorView {
    Rpc(Seq<char>),
    Archive(Seq<char>),
    Xdr(Seq<char>),
    Spec(Seq<char>),
    Cache(Seq<char>),
    Taxonomy(Seq<char>),
    Replay(Seq<char>),
    TransactionNotFound(Seq<char>),
    ContractNotFound(Seq<char>),
    Config(Seq<char>),
    InvalidAddress(Seq<char>),
    Internal(Seq<char>),
    NetworkTimeout { method: Seq<char>, timeout_secs: u64 },
}

impl View for PrismError {
    type V = ErrorView;

    open spec fn view(&self) -> ErrorView {
        match self {
            PrismError::RpcError(m) => ErrorView::Rpc(m@),
            PrismError::ArchiveError(m) => ErrorView::Archive(m@),
            PrismError::XdrError(m) => ErrorView::Xdr(m@),
            PrismError::SpecError(m) => ErrorView::Spec(m@),
            PrismError::CacheError(m) => ErrorView::Cache(m@),
            PrismError::TaxonomyError(m) => ErrorView::Taxonomy(m@),
            PrismError::ReplayError(m) => ErrorView::Replay(m@),
            PrismError::TransactionNotFound(m) => ErrorView::TransactionNotFound(m@),
            PrismError::ContractNotFound(m) => ErrorView::ContractNotFound(m@),
            PrismError::ConfigError(m) => ErrorView::Config(m@),
            PrismError::InvalidAddress(m) => ErrorView::InvalidAddress(m@),
            PrismError::Internal(m) => ErrorView::Internal(m@),
            PrismError::NetworkTimeout { method, timeout_secs } => ErrorView::NetworkTimeout {
                method: method@,
                timeout_secs: *timeout_secs,
            },
        }
    }
}

/// The human-readable message of an error.
pub open spec fn error_text(e: ErrorView) -> Seq<char> {
    match e {
        ErrorView::Rpc(m) => "RPC error: "@ + m,
        ErrorView::Archive(m) => "Archive error: "@ + m,
        ErrorView::Xdr(m) => "XDR error: "@ + m,
        ErrorView::Spec(m) => "Spec error: "@ + m,
        ErrorView::Cache(m) => "Cache error: "@ + m,
        ErrorView::Taxonomy(m) => "Taxonomy error: "@ + m,
        ErrorView::Replay(m) => "Replay error: "@ + m,
        ErrorView::TransactionNotFound(m) => "Transaction not found: "@ + m,
        ErrorView::ContractNotFound(m) => "Contract not found: "@ + m,
        ErrorView::Config(m) => "Config error: "@ + m,
        ErrorView::InvalidAddress(m) => "Invalid address: "@ + m,
        ErrorView::Internal(m) => "Internal error: "@ + m,
        ErrorView::NetworkTimeout { method, timeout_secs } => "Network timeout: "@ + method
            + " did not respond within "@ + decimal(timeout_secs as nat) + "s"@,
    }
}

impl PrismError {
    /// The human-readable message of this error (what the error displays as).
    pub fn describe(&self) -> (s: String)
        ensures
            s@ == error_text(self@),
    {
        match self {
            PrismError::RpcError(m) => String::from_str("RPC error: ").concat(m.as_str()),
            PrismError::ArchiveError(m) => String::from_str("Archive error: ").concat(m.as_str()),
            PrismError::XdrError(m) => String::from_str("XDR error: ").concat(m.as_str()),
            PrismError::SpecError(m) => String::from_str("Spec error: ").concat(m.as_str()),
            PrismError::CacheError(m) => String::from_str("Cache error: ").concat(m.as_str()),
            PrismError::TaxonomyError(m) => String::from_str("Taxonomy error: ").concat(
                m.as_str(),
            ),
            PrismError::ReplayError(m) => String::from_str("Replay error: ").concat(m.as_str()),
            PrismError::TransactionNotFound(m) => String::from_str(
                "Transaction not found: ",
            ).concat(m.as_str()),
            PrismError::ContractNotFound(m) => String::from_str("Contract not found: ").concat(
                m.as_str(),
            ),
            PrismError::ConfigError(m) => String::from_str("Config error: ").concat(m.as_str()),
            PrismError::InvalidAddress(m) => String::from_str("Invalid address: ").concat(
                m.as_str(),
            ),
            PrismError::Internal(m) => String::from_str("Internal error: ").concat(m.as_str()),
            PrismError::NetworkTimeout { method, timeout_secs } => {
                let mut s = String::from_str("Network timeout: ");
                push_str(&mut s, method.as_str());
                push_str(&mut s, " did not respond within ");
                let secs = u64_to_decimal(*timeout_secs);
                push_str(&mut s, secs.as_str());
                push_str(&mut s, "s");
                s
            },
        }
    }
}

} // verus!
