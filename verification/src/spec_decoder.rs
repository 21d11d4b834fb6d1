//! WASM ContractSpec decoder.
//!
//! Walks the sections of a WASM module, decodes the `contractspecv0` and
//! `contractmetav0` custom sections, and resolves contract error codes to
//! their named variants.
use vstd::prelude::*;
use vstd::string::*;
use crate::error::{ErrorView, PrismError, PrismResult};
use crate::contract_xdr::{
    errs_view, fns_view, meta_entries, read_meta_section, read_spec_section, spec_entries,
    ErrView, FnView,
};
use crate::text::{opt_view, push_str, str_eq};

verus! {

/// A decoded contract error enum variant.
#[derive(Debug, Clone)]
pub struct ContractErrorEntry {
    /// Numeric error code.
    pub code: u32,
    /// Name of the error variant (e.g., "InsufficientBalance").
    pub name: String,
    /// Doc comment, if present in the contract spec.
    pub doc: Option<String>,
}

/// A decoded contract function signature.
#[derive(Debug, Clone)]
pub struct ContractFunction {
    /// Function name.
    pub name: String,
    /// Parameter names and types.
    pub params: Vec<(String, String)>,
    /// Return type description.
    pub return_type: String,
    /// Doc comment, if present.
    pub doc: Option<String>,
}

/// Fully decoded contract specification.
#[derive(Debug, Clone)]
pub struct ContractSpec {
    /// Error enum variants defined in the contract.
    pub errors: Vec<ContractErrorEntry>,
    /// Function signatures.
    pub functions: Vec<ContractFunction>,
    /// Contract name from meta, if available.
    pub name: Option<String>,
    /// Contract version from meta, if available.
    pub version: Option<String>,
}

/// What `wasmparser::Parser::new(0).parse_all` yields for a module, one
/// entry per payload: the error's message for a payload that did not parse,
/// the name and contents of a custom section, and `None` for any other
/// payload.
pub uninterp spec fn wasm_payloads(bytes: Seq<u8>) -> Seq<Result<Option<(Seq<char>, Seq<u8>)>, Seq<char>>>;

/// One payload as the decoder sees it.
pub type PayloadView = Result<Option<(Seq<char>, Seq<u8>)>, Seq<char>>;

/// The view of one payload outcome.
pub open spec fn payload_view(p: Result<Option<(String, Vec<u8>)>, String>) -> PayloadView {
    match p {
        Ok(Some((name, data))) => Ok(Some((name@, data@))),
        Ok(None) => Ok(None),
        Err(e) => Err(e@),
    }
}

/// The views of the payload outcomes.
pub open spec fn payloads_view(v: Seq<Result<Option<(String, Vec<u8>)>, String>>) -> Seq<PayloadView> {
    v.map_values(|p: Result<Option<(String, Vec<u8>)>, String>| payload_view(p))
}

/// `wasmparser::Parser::new(0).parse_all(bytes)`, one entry per payload:
/// the error's message for a payload that did not parse, the name and data
/// of a custom section, `None` for any other payload. The parser stops after
/// its first error, so only the last entry can be an error.
#[verifier::external_body]
fn wasm_payload_results(bytes: &[u8]) -> (r: Vec<Result<Option<(String, Vec<u8>)>, String>>)
    ensures
        payloads_view(r@) == wasm_payloads(bytes@),
        forall|i: int| 0 <= i < r@.len() - 1 ==> (#[trigger] r@[i]) is Ok,
{
    let mut out = Vec::new();
    for payload in wasmparser::Parser::new(0).parse_all(bytes) {
        out.push(match payload {
            Ok(wasmparser::Payload::CustomSection(c)) => Ok(Some((c.name().to_string(), c.data().to_vec()))),
            Ok(_) => Ok(None),
            Err(e) => Err(e.to_string()),
        });
    }
    out
}

/// A decoded spec: error variants, functions, name and version.
pub type SpecView = (Seq<ErrView>, Seq<FnView>, Option<Seq<char>>, Option<Seq<char>>);

/// The view of a decoded spec.
pub open spec fn spec_view(sp: ContractSpec) -> SpecView {
    (errs_view(sp.errors@), fns_view(sp.functions@), opt_view(sp.name), opt_view(sp.version))
}

/// The name or version after a meta section that declared `found` (if any).
pub open spec fn override_with(previous: Option<Seq<char>>, found: Option<Seq<char>>) -> Option<
    Seq<char>,
> {
    match found {
        Some(x) => Some(x),
        None => previous,
    }
}

/// Decoding the payloads from `i` on, starting from `acc`: the first payload
/// that did not parse is a WASM parse error; each `contractspecv0` section
/// that decodes adds its error variants and functions, each
/// `contractmetav0` section that decodes sets the name and version it
/// declares; a section that does not decode, and any other payload, leaves
/// the spec as it was.
pub open spec fn decode_payloads(ps: Seq<PayloadView>, i: nat, acc: SpecView) -> Result<SpecView, ErrorView>
    decreases ps.len() - i,
{
    if i >= ps.len() {
        Ok(acc)
    } else {
        match ps[i as int] {
            Err(e) => Err(ErrorView::Spec("WASM parse error: "@ + e)),
            Ok(None) => decode_payloads(ps, i + 1, acc),
            Ok(Some((name, data))) => if name == "contractspecv0"@ {
                match spec_entries(data, 0, Seq::empty(), Seq::empty()) {
                    Some((es, fs)) => decode_payloads(ps, i + 1, (acc.0 + es, acc.1 + fs, acc.2, acc.3)),
                    None => decode_payloads(ps, i + 1, acc),
                }
            } else if name == "contractmetav0"@ {
                match meta_entries(data, 0, None, None) {
                    Some((n, v)) => decode_payloads(
                        ps,
                        i + 1,
                        (acc.0, acc.1, override_with(acc.2, n), override_with(acc.3, v)),
                    ),
                    None => decode_payloads(ps, i + 1, acc),
                }
            } else {
                decode_payloads(ps, i + 1, acc)
            },
        }
    }
}

/// What the payloads decode to, from an empty spec.
pub open spec fn decoded(ps: Seq<PayloadView>) -> Result<SpecView, ErrorView> {
    decode_payloads(ps, 0, (Seq::empty(), Seq::empty(), None, None))
}

/// The view of a decoding result.
pub open spec fn result_view(r: PrismResult<ContractSpec>) -> Result<SpecView, ErrorView> {
    match r {
        Ok(sp) => Ok(spec_view(sp)),
        Err(e) => Err(e@),
    }
}

/// Builds the contract spec from the parser's payload outcomes: the error
/// variants and functions of the `contractspecv0` sections and the name and
/// version of the `contractmetav0` sections; a section that does not decode
/// adds nothing, and only a payload that did not parse is an error.
pub fn spec_from_payload_results(results: &Vec<Result<Option<(String, Vec<u8>)>, String>>) -> (r:
    PrismResult<ContractSpec>)
    ensures
        result_view(r) == decoded(payloads_view(results@)),
{
    let ghost ps = payloads_view(results@);
    let mut spec = ContractSpec { errors: Vec::new(), functions: Vec::new(), name: None, version: None };
    proof {
        assert(errs_view(spec.errors@) =~= Seq::empty());
        assert(fns_view(spec.functions@) =~= Seq::empty());
    }
    let mut k: usize = 0;
    while k < results.len()
        invariant
            k <= results@.len(),
            ps == payloads_view(results@),
            decoded(ps) == decode_payloads(ps, k as nat, spec_view(spec)),
        decreases results@.len() - k,
    {
        proof {
            assert(ps[k as int] == payload_view(results@[k as int]));
        }
        match &results[k] {
            Err(e) => {
                let mut m = String::from_str("WASM parse error: ");
                push_str(&mut m, e.as_str());
                return Err(PrismError::SpecError(m));
            },
            Ok(None) => {},
            Ok(Some((name, data))) => {
                if str_eq(name.as_str(), "contractspecv0") {
                    let mut errors: Vec<ContractErrorEntry> = Vec::new();
                    let mut functions: Vec<ContractFunction> = Vec::new();
                    proof {
                        assert(errs_view(errors@) =~= Seq::empty());
                        assert(fns_view(functions@) =~= Seq::empty());
                    }
                    if read_spec_section(data.as_slice(), &mut errors, &mut functions) {
                        let ghost ev = errs_view(spec.errors@);
                        let ghost fv = fns_view(spec.functions@);
                        let ghost esv = errs_view(errors@);
                        let ghost fsv = fns_view(functions@);
                        spec.errors.append(&mut errors);
                        spec.functions.append(&mut functions);
                        proof {
                            assert(errs_view(spec.errors@) =~= ev + esv);
                            assert(fns_view(spec.functions@) =~= fv + fsv);
                        }
                    }
                } else if str_eq(name.as_str(), "contractmetav0") {
                    let mut found_name: Option<String> = None;
                    let mut found_version: Option<String> = None;
                    if read_meta_section(data.as_slice(), &mut found_name, &mut found_version) {
                        if found_name.is_some() {
                            spec.name = found_name;
                        }
                        if found_version.is_some() {
                            spec.version = found_version;
                        }
                    }
                }
            },
        }
        k = k + 1;
    }
    Ok(spec)
}

/// Parse WASM bytecode and extract the contract specification: the error
/// enums and functions of its `contractspecv0` section and the name and
/// version of its `contractmetav0` section. Only a module that does not parse
/// is an error; a custom section that does not decode adds nothing.
pub fn decode_contract_spec(wasm_bytes: &[u8]) -> (r: PrismResult<ContractSpec>)
    ensures
        result_view(r) == decoded(wasm_payloads(wasm_bytes@)),
{
    let results = wasm_payload_results(wasm_bytes);
    spec_from_payload_results(&results)
}

/// Resolve a numeric error code to its named variant using a contract spec:
/// the first entry with that code.
pub fn resolve_error_code(spec: &ContractSpec, error_code: u32) -> (r: Option<&ContractErrorEntry>)
    ensures
        match r {
            Some(e) => exists|i: int|
                0 <= i < spec.errors@.len() && spec.errors@[i] == *e && e.code == error_code
                    && forall|k: int| 0 <= k < i ==> (#[trigger] spec.errors@[k]).code != error_code,
            None => forall|k: int|
                0 <= k < spec.errors@.len() ==> (#[trigger] spec.errors@[k]).code != error_code,
        },
{
    let mut k: usize = 0;
    while k < spec.errors.len()
        invariant
            k <= spec.errors@.len(),
            forall|m: int| 0 <= m < k ==> (#[trigger] spec.errors@[m]).code != error_code,
        decreases spec.errors.len() - k,
    {
        if spec.errors[k].code == error_code {
            return Some(&spec.errors[k]);
        }
        k = k + 1;
    }
    None
}

} // verus!
