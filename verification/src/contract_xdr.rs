//! The XDR streams that a Soroban contract stores in its WASM custom
//! sections: `contractspecv0` holds a sequence of `SCSpecEntry` values and
//! `contractmetav0` a sequence of `SCMetaEntry` values.
//!
//! XDR integers are big-endian 32-bit words; a string is its length, its
//! bytes, and padding to a multiple of four bytes; a variable-length array is
//! its count followed by its elements; a union is its discriminant followed by
//! the arm. Strings must be UTF-8. Padding bytes and the declared maximum
//! lengths are not checked. Nested type definitions deeper than
//! `TYPE_DEPTH` are refused.
use vstd::prelude::*;
use vstd::string::*;
use vstd::utf8::*;
use crate::http::utf8_text;
use crate::spec_decoder::{ContractErrorEntry, ContractFunction};
use crate::text::{decimal, opt_view, push_str, str_eq, u64_to_decimal};

verus! {

broadcast use vstd::string::group_string_axioms;

/// The deepest nesting of type definitions that is decoded.
pub const TYPE_DEPTH: usize = 500;

/// The big-endian 32-bit word at `p`.
pub open spec fn be_u32(s: Seq<u8>, p: int) -> nat {
    (s[p] as nat) * 16777216 + (s[p + 1] as nat) * 65536 + (s[p + 2] as nat) * 256 + (s[p
        + 3] as nat)
}

/// An unsigned integer at `p`, and where it ends.
pub open spec fn xdr_u32(s: Seq<u8>, p: nat) -> Option<(nat, nat)> {
    if p + 4 <= s.len() {
        Some((be_u32(s, p as int), p + 4))
    } else {
        None
    }
}

/// `n` rounded up to a multiple of four.
pub open spec fn padded(n: nat) -> nat {
    if n % 4 == 0 {
        n
    } else {
        n + (4 - n % 4) as nat
    }
}

/// A UTF-8 string at `p`, and where it ends (after its padding).
pub open spec fn xdr_text(s: Seq<u8>, p: nat) -> Option<(Seq<char>, nat)> {
    match xdr_u32(s, p) {
        Some((n, q)) => if q + padded(n) <= s.len() && valid_utf8(s.subrange(q as int, (q + n) as int)) {
            Some((decode_utf8(s.subrange(q as int, (q + n) as int)), q + padded(n)))
        } else {
            None
        },
        None => None,
    }
}

/// The name of a type that has no parameters (`SCSpecType`).
pub open spec fn simple_type_name(code: nat) -> Option<Seq<char>> {
    if code == 0 {
        Some("Val"@)
    } else if code == 1 {
        Some("bool"@)
    } else if code == 2 {
        Some("()"@)
    } else if code == 3 {
        Some("Error"@)
    } else if code == 4 {
        Some("u32"@)
    } else if code == 5 {
        Some("i32"@)
    } else if code == 6 {
        Some("u64"@)
    } else if code == 7 {
        Some("i64"@)
    } else if code == 8 {
        Some("Timepoint"@)
    } else if code == 9 {
        Some("Duration"@)
    } else if code == 10 {
        Some("u128"@)
    } else if code == 11 {
        Some("i128"@)
    } else if code == 12 {
        Some("u256"@)
    } else if code == 13 {
        Some("i256"@)
    } else if code == 14 {
        Some("Bytes"@)
    } else if code == 16 {
        Some("String"@)
    } else if code == 17 {
        Some("Symbol"@)
    } else if code == 19 {
        Some("Address"@)
    } else if code == 20 {
        Some("MuxedAddress"@)
    } else {
        None
    }
}

/// Type names joined by `, `.
pub open spec fn join(ts: Seq<Seq<char>>) -> Seq<char>
    decreases ts.len(),
{
    if ts.len() == 0 {
        Seq::empty()
    } else if ts.len() == 1 {
        ts[0]
    } else {
        join(ts.drop_last()) + ", "@ + ts.last()
    }
}

/// A type definition (`SCSpecTypeDef`) at `p` rendered as Rust-like text
/// (`Option<u32>`, `Map<Symbol, i128>`, `(u32, bool)`, `BytesN<32>`, or the
/// name of a user-defined type), and where it ends.
pub open spec fn ty(s: Seq<u8>, p: nat, depth: nat) -> Option<(Seq<char>, nat)>
    decreases depth, 0nat,
{
    if depth == 0 {
        None
    } else {
        match xdr_u32(s, p) {
            None => None,
            Some((code, q)) => if simple_type_name(code) is Some {
                Some((simple_type_name(code)->0, q))
            } else if code == 1000 {
                match ty(s, q, (depth - 1) as nat) {
                    Some((t, r)) => Some(("Option<"@ + t + ">"@, r)),
                    None => None,
                }
            } else if code == 1001 {
                match ty(s, q, (depth - 1) as nat) {
                    Some((t, r)) => match ty(s, r, (depth - 1) as nat) {
                        Some((e, r2)) => Some(("Result<"@ + t + ", "@ + e + ">"@, r2)),
                        None => None,
                    },
                    None => None,
                }
            } else if code == 1002 {
                match ty(s, q, (depth - 1) as nat) {
                    Some((t, r)) => Some(("Vec<"@ + t + ">"@, r)),
                    None => None,
                }
            } else if code == 1004 {
                match ty(s, q, (depth - 1) as nat) {
                    Some((k, r)) => match ty(s, r, (depth - 1) as nat) {
                        Some((v, r2)) => Some(("Map<"@ + k + ", "@ + v + ">"@, r2)),
                        None => None,
                    },
                    None => None,
                }
            } else if code == 1005 {
                match xdr_u32(s, q) {
                    Some((n, q2)) => match tys(s, q2, n, (depth - 1) as nat) {
                        Some((ts, r)) => Some(("("@ + join(ts) + ")"@, r)),
                        None => None,
                    },
                    None => None,
                }
            } else if code == 1006 {
                match xdr_u32(s, q) {
                    Some((n, r)) => Some(("BytesN<"@ + decimal(n) + ">"@, r)),
                    None => None,
                }
            } else if code == 2000 {
                xdr_text(s, q)
            } else {
                None
            },
        }
    }
}

/// `n` consecutive type definitions at `p`, and where they end.
pub open spec fn tys(s: Seq<u8>, p: nat, n: nat, depth: nat) -> Option<(Seq<Seq<char>>, nat)>
    decreases depth, n + 1,
{
    if n == 0 {
        Some((Seq::empty(), p))
    } else {
        match tys(s, p, (n - 1) as nat, depth) {
            Some((ts, q)) => match ty(s, q, depth) {
                Some((t, r)) => Some((ts.push(t), r)),
                None => None,
            },
            None => None,
        }
    }
}

/// A doc string, a name and a type (a function input, a struct field):
/// the name and the type's text, and where they end.
pub open spec fn named_type(s: Seq<u8>, p: nat) -> Option<((Seq<char>, Seq<char>), nat)> {
    match xdr_text(s, p) {
        Some((_doc, q)) => match xdr_text(s, q) {
            Some((name, r)) => match ty(s, r, TYPE_DEPTH as nat) {
                Some((t, e)) => Some(((name, t), e)),
                None => None,
            },
            None => None,
        },
        None => None,
    }
}

/// `n` consecutive named types at `p`.
pub open spec fn named_types(s: Seq<u8>, p: nat, n: nat) -> Option<(Seq<(Seq<char>, Seq<char>)>, nat)>
    decreases n,
{
    if n == 0 {
        Some((Seq::empty(), p))
    } else {
        match named_types(s, p, (n - 1) as nat) {
            Some((xs, q)) => match named_type(s, q) {
                Some((x, r)) => Some((xs.push(x), r)),
                None => None,
            },
            None => None,
        }
    }
}

/// An empty doc string means no doc.
pub open spec fn doc_of(d: Seq<char>) -> Option<Seq<char>> {
    if d.len() == 0 {
        None
    } else {
        Some(d)
    }
}

/// A decoded error variant: its code, its name and its doc.
pub type ErrView = (u32, Seq<char>, Option<Seq<char>>);

/// A decoded function: its name, its parameters (name and type), its return
/// type and its doc.
pub type FnView = (Seq<char>, Seq<(Seq<char>, Seq<char>)>, Seq<char>, Option<Seq<char>>);

/// An enum case (`SCSpecUDTErrorEnumCaseV0`, `SCSpecUDTEnumCaseV0`): doc,
/// name and value.
pub open spec fn enum_case(s: Seq<u8>, p: nat) -> Option<(ErrView, nat)> {
    match xdr_text(s, p) {
        Some((doc, q)) => match xdr_text(s, q) {
            Some((name, r)) => match xdr_u32(s, r) {
                Some((v, e)) => Some(((v as u32, name, doc_of(doc)), e)),
                None => None,
            },
            None => None,
        },
        None => None,
    }
}

/// `n` consecutive enum cases at `p`.
pub open spec fn enum_cases(s: Seq<u8>, p: nat, n: nat) -> Option<(Seq<ErrView>, nat)>
    decreases n,
{
    if n == 0 {
        Some((Seq::empty(), p))
    } else {
        match enum_cases(s, p, (n - 1) as nat) {
            Some((xs, q)) => match enum_case(s, q) {
                Some((x, r)) => Some((xs.push(x), r)),
                None => None,
            },
            None => None,
        }
    }
}

/// `n` consecutive strings at `p`: where they end.
pub open spec fn texts(s: Seq<u8>, p: nat, n: nat) -> Option<nat>
    decreases n,
{
    if n == 0 {
        Some(p)
    } else {
        match texts(s, p, (n - 1) as nat) {
            Some(q) => match xdr_text(s, q) {
                Some((_t, r)) => Some(r),
                None => None,
            },
            None => None,
        }
    }
}

/// A union case (`SCSpecUDTUnionCaseV0`): a void case (doc, name) or a tuple
/// case (doc, name, types): where it ends.
pub open spec fn union_case(s: Seq<u8>, p: nat) -> Option<nat> {
    match xdr_u32(s, p) {
        Some((kind, q)) => if kind == 0 {
            texts(s, q, 2)
        } else if kind == 1 {
            match texts(s, q, 2) {
                Some(r) => match xdr_u32(s, r) {
                    Some((n, r2)) => match tys(s, r2, n, TYPE_DEPTH as nat) {
                        Some((_ts, e)) => Some(e),
                        None => None,
                    },
                    None => None,
                },
                None => None,
            }
        } else {
            None
        },
        None => None,
    }
}

/// `n` consecutive union cases at `p`: where they end.
pub open spec fn union_cases(s: Seq<u8>, p: nat, n: nat) -> Option<nat>
    decreases n,
{
    if n == 0 {
        Some(p)
    } else {
        match union_cases(s, p, (n - 1) as nat) {
            Some(q) => union_case(s, q),
            None => None,
        }
    }
}

/// An event parameter (`SCSpecEventParamV0`): doc, name, type and location:
/// where it ends.
pub open spec fn event_param(s: Seq<u8>, p: nat) -> Option<nat> {
    match named_type(s, p) {
        Some((_x, q)) => match xdr_u32(s, q) {
            Some((_loc, r)) => Some(r),
            None => None,
        },
        None => None,
    }
}

/// `n` consecutive event parameters at `p`: where they end.
pub open spec fn event_params(s: Seq<u8>, p: nat, n: nat) -> Option<nat>
    decreases n,
{
    if n == 0 {
        Some(p)
    } else {
        match event_params(s, p, (n - 1) as nat) {
            Some(q) => event_param(s, q),
            None => None,
        }
    }
}

/// A counted list at `p` of named types (0), enum cases (1), union cases
/// (2), strings (3) or event parameters (4): where it ends.
pub open spec fn counted(s: Seq<u8>, p: nat, kind: nat) -> Option<nat> {
    match xdr_u32(s, p) {
        Some((n, q)) => if kind == 0 {
            match named_types(s, q, n) {
                Some((_xs, r)) => Some(r),
                None => None,
            }
        } else if kind == 1 {
            match enum_cases(s, q, n) {
                Some((_xs, r)) => Some(r),
                None => None,
            }
        } else if kind == 2 {
            union_cases(s, q, n)
        } else if kind == 3 {
            texts(s, q, n)
        } else {
            event_params(s, q, n)
        },
        None => None,
    }
}

/// The list that follows the doc, library and name of a struct (its fields),
/// a union (its cases) or a plain enum (its cases).
pub open spec fn udt_list_kind(kind: nat) -> nat {
    if kind == 1 {
        0
    } else if kind == 2 {
        2
    } else {
        1
    }
}

/// What one spec entry contributes.
pub enum SpecItem {
    Function(FnView),
    Errors(Seq<ErrView>),
    Other,
}

/// The return type text of a function's outputs: `()` for none, the type
/// for one; more than one output is malformed.
pub open spec fn outputs(s: Seq<u8>, p: nat) -> Option<(Seq<char>, nat)> {
    match xdr_u32(s, p) {
        Some((m, q)) => if m == 0 {
            Some(("()"@, q))
        } else if m == 1 {
            ty(s, q, TYPE_DEPTH as nat)
        } else {
            None
        },
        None => None,
    }
}

/// The body of a function entry (`SCSpecFunctionV0`): doc, name, inputs and
/// outputs.
pub open spec fn function_body(s: Seq<u8>, p: nat) -> Option<(FnView, nat)> {
    match xdr_text(s, p) {
        Some((doc, q)) => match xdr_text(s, q) {
            Some((name, r)) => match xdr_u32(s, r) {
                Some((n, r2)) => match named_types(s, r2, n) {
                    Some((params, r3)) => match outputs(s, r3) {
                        Some((ret, e)) => Some(((name, params, ret, doc_of(doc)), e)),
                        None => None,
                    },
                    None => None,
                },
                None => None,
            },
            None => None,
        },
        None => None,
    }
}

/// The body of an error enum entry (`SCSpecUDTErrorEnumV0`): doc, library,
/// name and cases.
pub open spec fn error_enum_body(s: Seq<u8>, p: nat) -> Option<(Seq<ErrView>, nat)> {
    match texts(s, p, 3) {
        Some(q) => match xdr_u32(s, q) {
            Some((n, r)) => enum_cases(s, r, n),
            None => None,
        },
        None => None,
    }
}

/// The body of an event entry (`SCSpecEventV0`): doc, library, name, prefix
/// topics, parameters and data format: where it ends.
pub open spec fn event_body(s: Seq<u8>, p: nat) -> Option<nat> {
    match texts(s, p, 3) {
        Some(q) => match counted(s, q, 3) {
            Some(r) => match counted(s, r, 4) {
                Some(r2) => match xdr_u32(s, r2) {
                    Some((_f, e)) => Some(e),
                    None => None,
                },
                None => None,
            },
            None => None,
        },
        None => None,
    }
}

/// One spec entry (`SCSpecEntry`) at `p`: what it contributes, and where it
/// ends. Structs, unions, plain enums and events are read past.
pub open spec fn spec_entry(s: Seq<u8>, p: nat) -> Option<(SpecItem, nat)> {
    match xdr_u32(s, p) {
        Some((kind, q)) => if kind == 0 {
            match function_body(s, q) {
                Some((f, r)) => Some((SpecItem::Function(f), r)),
                None => None,
            }
        } else if kind == 4 {
            match error_enum_body(s, q) {
                Some((es, r)) => Some((SpecItem::Errors(es), r)),
                None => None,
            }
        } else if 1 <= kind <= 3 {
            match texts(s, q, 3) {
                Some(r) => match counted(s, r, udt_list_kind(kind)) {
                    Some(e) => Some((SpecItem::Other, e)),
                    None => None,
                },
                None => None,
            }
        } else if kind == 5 {
            match event_body(s, q) {
                Some(e) => Some((SpecItem::Other, e)),
                None => None,
            }
        } else {
            None
        },
        None => None,
    }
}

/// The error variants and functions of the spec entries from `p` to the
/// end, appended to `errs` and `fns`; `None` when an entry is malformed.
pub open spec fn spec_entries(s: Seq<u8>, p: nat, errs: Seq<ErrView>, fns: Seq<FnView>) -> Option<
    (Seq<ErrView>, Seq<FnView>),
>
    decreases s.len() - p,
{
    if p >= s.len() {
        Some((errs, fns))
    } else {
        match spec_entry(s, p) {
            Some((item, q)) => if p < q && q <= s.len() {
                match item {
                    SpecItem::Function(f) => spec_entries(s, q, errs, fns.push(f)),
                    SpecItem::Errors(es) => spec_entries(s, q, errs + es, fns),
                    SpecItem::Other => spec_entries(s, q, errs, fns),
                }
            } else {
                None
            },
            None => None,
        }
    }
}

/// Whether a meta key names the contract.
pub open spec fn is_name_key(k: Seq<char>) -> bool {
    k == "name"@
}

/// Whether a meta key gives the contract's version.
pub open spec fn is_version_key(k: Seq<char>) -> bool {
    k == "version"@ || k == "binver"@
}

/// The name and version set by the meta entries (`SCMetaEntry`: kind 0, key,
/// value) from `p` to the end, starting from `name` and `version`; a later
/// entry overrides an earlier one. `None` when an entry is malformed.
pub open spec fn meta_entries(
    s: Seq<u8>,
    p: nat,
    name: Option<Seq<char>>,
    version: Option<Seq<char>>,
) -> Option<(Option<Seq<char>>, Option<Seq<char>>)>
    decreases s.len() - p,
{
    if p >= s.len() {
        Some((name, version))
    } else {
        match xdr_u32(s, p) {
            Some((kind, q)) => if kind != 0 {
                None
            } else {
                match xdr_text(s, q) {
                    Some((k, r)) => match xdr_text(s, r) {
                        Some((v, e)) => meta_entries(
                            s,
                            e,
                            if is_name_key(k) {
                                Some(v)
                            } else {
                                name
                            },
                            if is_version_key(k) {
                                Some(v)
                            } else {
                                version
                            },
                        ),
                        None => None,
                    },
                    None => None,
                }
            },
            None => None,
        }
    }
}

/// The view of a decoded error variant.
pub open spec fn err_view(e: ContractErrorEntry) -> ErrView {
    (e.code, e.name@, match e.doc {
        Some(d) => Some(d@),
        None => None,
    })
}

/// The view of a decoded function.
pub open spec fn fn_view(f: ContractFunction) -> FnView {
    (f.name@, f.params@.map_values(|pr: (String, String)| (pr.0@, pr.1@)), f.return_type@, match f.doc {
        Some(d) => Some(d@),
        None => None,
    })
}

proof fn lemma_tys_none(s: Seq<u8>, p: nat, k: nat, n: nat, d: nat)
    requires
        k <= n,
        tys(s, p, k, d) is None,
    ensures
        tys(s, p, n, d) is None,
    decreases n,
{
    if k < n {
        lemma_tys_none(s, p, k, (n - 1) as nat, d);
    }
}

// ---------------------------------------------------------------------------
// Reading.
fn read_u32(s: &[u8], p: usize) -> (r: Option<(u32, usize)>)
    requires
        p <= s@.len(),
    ensures
        match r {
            Some((v, q)) => xdr_u32(s@, p as nat) == Some((v as nat, q as nat)) && p <= q <= s@.len(),
            None => xdr_u32(s@, p as nat) is None,
        },
{
    if s.len() - p < 4 {
        return None;
    }
    let v: u32 = (s[p] as u32) * 16777216 + (s[p + 1] as u32) * 65536 + (s[p + 2] as u32) * 256
        + (s[p + 3] as u32);
    Some((v, p + 4))
}

fn read_text(s: &[u8], p: usize) -> (r: Option<(String, usize)>)
    requires
        p <= s@.len(),
    ensures
        match r {
            Some((t, q)) => xdr_text(s@, p as nat) == Some((t@, q as nat)) && p <= q <= s@.len(),
            None => xdr_text(s@, p as nat) is None,
        },
{
    let (n, q) = match read_u32(s, p) {
        Some(x) => x,
        None => return None,
    };
    let n = n as usize;
    let avail = s.len() - q;
    if n > avail {
        return None;
    }
    let pad: usize = if n % 4 == 0 {
        0
    } else {
        4 - n % 4
    };
    if pad > avail - n {
        return None;
    }
    let bytes = vstd::slice::slice_subrange(s, q, q + n);
    match utf8_text(bytes) {
        Some(t) => Some((t, q + n + pad)),
        None => None,
    }
}

fn simple_type(code: u32) -> (r: Option<&'static str>)
    ensures
        match r {
            Some(t) => simple_type_name(code as nat) == Some(t@),
            None => simple_type_name(code as nat) is None,
        },
{
    match code {
        0 => Some("Val"),
        1 => Some("bool"),
        2 => Some("()"),
        3 => Some("Error"),
        4 => Some("u32"),
        5 => Some("i32"),
        6 => Some("u64"),
        7 => Some("i64"),
        8 => Some("Timepoint"),
        9 => Some("Duration"),
        10 => Some("u128"),
        11 => Some("i128"),
        12 => Some("u256"),
        13 => Some("i256"),
        14 => Some("Bytes"),
        16 => Some("String"),
        17 => Some("Symbol"),
        19 => Some("Address"),
        20 => Some("MuxedAddress"),
        _ => None,
    }
}

fn wrapped(open: &str, inner: &str, close: &str) -> (r: String)
    ensures
        r@ == open@ + inner@ + close@,
{
    let mut r = String::from_str(open);
    push_str(&mut r, inner);
    push_str(&mut r, close);
    r
}

fn read_type(s: &[u8], p: usize, depth: usize) -> (r: Option<(String, usize)>)
    requires
        p <= s@.len(),
    ensures
        match r {
            Some((t, q)) => ty(s@, p as nat, depth as nat) == Some((t@, q as nat)) && p <= q <= s@.len(),
            None => ty(s@, p as nat, depth as nat) is None,
        },
    decreases depth,
{
    if depth == 0 {
        return None;
    }
    let (code, q) = match read_u32(s, p) {
        Some(x) => x,
        None => return None,
    };
    match simple_type(code) {
        Some(t) => return Some((String::from_str(t), q)),
        None => {},
    }
    if code == 1000 || code == 1002 {
        let (t, r) = match read_type(s, q, depth - 1) {
            Some(x) => x,
            None => return None,
        };
        let text = if code == 1000 {
            wrapped("Option<", t.as_str(), ">")
        } else {
            wrapped("Vec<", t.as_str(), ">")
        };
        Some((text, r))
    } else if code == 1001 || code == 1004 {
        let (t, r) = match read_type(s, q, depth - 1) {
            Some(x) => x,
            None => return None,
        };
        let (e, r2) = match read_type(s, r, depth - 1) {
            Some(x) => x,
            None => return None,
        };
        let mut text = if code == 1001 {
            String::from_str("Result<")
        } else {
            String::from_str("Map<")
        };
        push_str(&mut text, t.as_str());
        push_str(&mut text, ", ");
        push_str(&mut text, e.as_str());
        push_str(&mut text, ">");
        Some((text, r2))
    } else if code == 1005 {
        let (n, q2) = match read_u32(s, q) {
            Some(x) => x,
            None => return None,
        };
        let mut text = String::new();
        let mut pos = q2;
        let mut k: u32 = 0;
        let ghost mut ts: Seq<Seq<char>> = Seq::empty();
        while k < n
            invariant
                p <= q2 <= pos <= s@.len(),
                k <= n,
                depth >= 1,
                tys(s@, q2 as nat, k as nat, (depth - 1) as nat) == Some((ts, pos as nat)),
                tys(s@, q2 as nat, n as nat, (depth - 1) as nat) is None ==> ty(
                    s@,
                    p as nat,
                    depth as nat,
                ) is None,
                text@ == join(ts),
                ts.len() == k,
            decreases n - k,
        {
            let (t, r) = match read_type(s, pos, depth - 1) {
                Some(x) => x,
                None => {
                    proof {
                        assert(tys(s@, q2 as nat, (k + 1) as nat, (depth - 1) as nat) is None);
                        lemma_tys_none(s@, q2 as nat, (k + 1) as nat, n as nat, (depth - 1) as nat);
                    }
                    return None;
                },
            };
            proof {
                assert(ts.push(t@).drop_last() =~= ts);
            }
            if k > 0 {
                push_str(&mut text, ", ");
            }
            push_str(&mut text, t.as_str());
            proof {
                if k == 0 {
                    assert(text@ =~= join(ts.push(t@)));
                }
                ts = ts.push(t@);
            }
            pos = r;
            k = k + 1;
        }
        Some((wrapped("(", text.as_str(), ")"), pos))
    } else if code == 1006 {
        let (n, r) = match read_u32(s, q) {
            Some(x) => x,
            None => return None,
        };
        let d = u64_to_decimal(n as u64);
        Some((wrapped("BytesN<", d.as_str(), ">"), r))
    } else if code == 2000 {
        read_text(s, q)
    } else {
        None
    }
}


/// The view of decoded parameters.
pub open spec fn pairs_view(v: Seq<(String, String)>) -> Seq<(Seq<char>, Seq<char>)> {
    v.map_values(|pr: (String, String)| (pr.0@, pr.1@))
}

proof fn lemma_named_types_none(s: Seq<u8>, p: nat, k: nat, n: nat)
    requires
        k <= n,
        named_types(s, p, k) is None,
    ensures
        named_types(s, p, n) is None,
    decreases n,
{
    if k < n {
        lemma_named_types_none(s, p, k, (n - 1) as nat);
    }
}

proof fn lemma_enum_cases_none(s: Seq<u8>, p: nat, k: nat, n: nat)
    requires
        k <= n,
        enum_cases(s, p, k) is None,
    ensures
        enum_cases(s, p, n) is None,
    decreases n,
{
    if k < n {
        lemma_enum_cases_none(s, p, k, (n - 1) as nat);
    }
}

proof fn lemma_texts_none(s: Seq<u8>, p: nat, k: nat, n: nat)
    requires
        k <= n,
        texts(s, p, k) is None,
    ensures
        texts(s, p, n) is None,
    decreases n,
{
    if k < n {
        lemma_texts_none(s, p, k, (n - 1) as nat);
    }
}

proof fn lemma_union_cases_none(s: Seq<u8>, p: nat, k: nat, n: nat)
    requires
        k <= n,
        union_cases(s, p, k) is None,
    ensures
        union_cases(s, p, n) is None,
    decreases n,
{
    if k < n {
        lemma_union_cases_none(s, p, k, (n - 1) as nat);
    }
}

proof fn lemma_event_params_none(s: Seq<u8>, p: nat, k: nat, n: nat)
    requires
        k <= n,
        event_params(s, p, k) is None,
    ensures
        event_params(s, p, n) is None,
    decreases n,
{
    if k < n {
        lemma_event_params_none(s, p, k, (n - 1) as nat);
    }
}

fn read_named_type(s: &[u8], p: usize) -> (r: Option<((String, String), usize)>)
    requires
        p <= s@.len(),
    ensures
        match r {
            Some((x, q)) => named_type(s@, p as nat) == Some(((x.0@, x.1@), q as nat)) && p <= q
                <= s@.len(),
            None => named_type(s@, p as nat) is None,
        },
{
    let (_doc, q) = match read_text(s, p) {
        Some(x) => x,
        None => return None,
    };
    let (name, r) = match read_text(s, q) {
        Some(x) => x,
        None => return None,
    };
    let (t, e) = match read_type(s, r, TYPE_DEPTH) {
        Some(x) => x,
        None => return None,
    };
    Some(((name, t), e))
}

fn read_named_types(s: &[u8], p: usize, n: u32) -> (r: Option<(Vec<(String, String)>, usize)>)
    requires
        p <= s@.len(),
    ensures
        match r {
            Some((v, q)) => named_types(s@, p as nat, n as nat) == Some((pairs_view(v@), q as nat))
                && p <= q <= s@.len(),
            None => named_types(s@, p as nat, n as nat) is None,
        },
{
    let mut v: Vec<(String, String)> = Vec::new();
    let mut pos = p;
    let mut k: u32 = 0;
    while k < n
        invariant
            p <= pos <= s@.len(),
            k <= n,
            named_types(s@, p as nat, k as nat) == Some((pairs_view(v@), pos as nat)),
        decreases n - k,
    {
        let (x, r) = match read_named_type(s, pos) {
            Some(x) => x,
            None => {
                proof {
                    assert(named_types(s@, p as nat, (k + 1) as nat) is None);
                    lemma_named_types_none(s@, p as nat, (k + 1) as nat, n as nat);
                }
                return None;
            },
        };
        let ghost old_v = v@;
        v.push(x);
        proof {
            assert(pairs_view(v@) =~= pairs_view(old_v).push((x.0@, x.1@)));
        }
        pos = r;
        k = k + 1;
    }
    Some((v, pos))
}

fn doc_option(doc: String) -> (r: Option<String>)
    ensures
        match r {
            Some(d) => doc_of(doc@) == Some(d@),
            None => doc_of(doc@) is None,
        },
{
    if doc.as_str().is_empty() {
        None
    } else {
        Some(doc)
    }
}

fn read_enum_case(s: &[u8], p: usize) -> (r: Option<(ContractErrorEntry, usize)>)
    requires
        p <= s@.len(),
    ensures
        match r {
            Some((x, q)) => enum_case(s@, p as nat) == Some((err_view(x), q as nat)) && p <= q
                <= s@.len(),
            None => enum_case(s@, p as nat) is None,
        },
{
    let (doc, q) = match read_text(s, p) {
        Some(x) => x,
        None => return None,
    };
    let (name, r) = match read_text(s, q) {
        Some(x) => x,
        None => return None,
    };
    let (v, e) = match read_u32(s, r) {
        Some(x) => x,
        None => return None,
    };
    let doc = doc_option(doc);
    Some((ContractErrorEntry { code: v, name, doc }, e))
}

/// The view of decoded error variants.
pub open spec fn errs_view(v: Seq<ContractErrorEntry>) -> Seq<ErrView> {
    v.map_values(|e: ContractErrorEntry| err_view(e))
}

/// The view of decoded functions.
pub open spec fn fns_view(v: Seq<ContractFunction>) -> Seq<FnView> {
    v.map_values(|f: ContractFunction| fn_view(f))
}

fn read_enum_cases(s: &[u8], p: usize, n: u32) -> (r: Option<(Vec<ContractErrorEntry>, usize)>)
    requires
        p <= s@.len(),
    ensures
        match r {
            Some((v, q)) => enum_cases(s@, p as nat, n as nat) == Some((errs_view(v@), q as nat))
                && p <= q <= s@.len(),
            None => enum_cases(s@, p as nat, n as nat) is None,
        },
{
    let mut v: Vec<ContractErrorEntry> = Vec::new();
    let mut pos = p;
    let mut k: u32 = 0;
    while k < n
        invariant
            p <= pos <= s@.len(),
            k <= n,
            enum_cases(s@, p as nat, k as nat) == Some((errs_view(v@), pos as nat)),
        decreases n - k,
    {
        let (x, r) = match read_enum_case(s, pos) {
            Some(x) => x,
            None => {
                proof {
                    assert(enum_cases(s@, p as nat, (k + 1) as nat) is None);
                    lemma_enum_cases_none(s@, p as nat, (k + 1) as nat, n as nat);
                }
                return None;
            },
        };
        let ghost old_v = v@;
        let ghost xv = err_view(x);
        v.push(x);
        proof {
            assert(errs_view(v@) =~= errs_view(old_v).push(xv));
        }
        pos = r;
        k = k + 1;
    }
    Some((v, pos))
}

fn skip_texts(s: &[u8], p: usize, n: u32) -> (r: Option<usize>)
    requires
        p <= s@.len(),
    ensures
        match r {
            Some(q) => texts(s@, p as nat, n as nat) == Some(q as nat) && p <= q <= s@.len(),
            None => texts(s@, p as nat, n as nat) is None,
        },
{
    let mut pos = p;
    let mut k: u32 = 0;
    while k < n
        invariant
            p <= pos <= s@.len(),
            k <= n,
            texts(s@, p as nat, k as nat) == Some(pos as nat),
        decreases n - k,
    {
        let (_t, r) = match read_text(s, pos) {
            Some(x) => x,
            None => {
                proof {
                    assert(texts(s@, p as nat, (k + 1) as nat) is None);
                    lemma_texts_none(s@, p as nat, (k + 1) as nat, n as nat);
                }
                return None;
            },
        };
        pos = r;
        k = k + 1;
    }
    Some(pos)
}

fn skip_types(s: &[u8], p: usize, n: u32) -> (r: Option<usize>)
    requires
        p <= s@.len(),
    ensures
        match r {
            Some(q) => (tys(s@, p as nat, n as nat, TYPE_DEPTH as nat) matches Some((_ts, e)) && e
                == q as nat) && p <= q <= s@.len(),
            None => tys(s@, p as nat, n as nat, TYPE_DEPTH as nat) is None,
        },
{
    let mut pos = p;
    let mut k: u32 = 0;
    let ghost mut ts: Seq<Seq<char>> = Seq::empty();
    while k < n
        invariant
            p <= pos <= s@.len(),
            k <= n,
            tys(s@, p as nat, k as nat, TYPE_DEPTH as nat) == Some((ts, pos as nat)),
        decreases n - k,
    {
        let (t, r) = match read_type(s, pos, TYPE_DEPTH) {
            Some(x) => x,
            None => {
                proof {
                    assert(tys(s@, p as nat, (k + 1) as nat, TYPE_DEPTH as nat) is None);
                    lemma_tys_none(s@, p as nat, (k + 1) as nat, n as nat, TYPE_DEPTH as nat);
                }
                return None;
            },
        };
        proof {
            ts = ts.push(t@);
        }
        pos = r;
        k = k + 1;
    }
    Some(pos)
}

fn skip_union_case(s: &[u8], p: usize) -> (r: Option<usize>)
    requires
        p <= s@.len(),
    ensures
        match r {
            Some(q) => union_case(s@, p as nat) == Some(q as nat) && p <= q <= s@.len(),
            None => union_case(s@, p as nat) is None,
        },
{
    let (kind, q) = match read_u32(s, p) {
        Some(x) => x,
        None => return None,
    };
    if kind == 0 {
        skip_texts(s, q, 2)
    } else if kind == 1 {
        let r = match skip_texts(s, q, 2) {
            Some(x) => x,
            None => return None,
        };
        let (n, r2) = match read_u32(s, r) {
            Some(x) => x,
            None => return None,
        };
        skip_types(s, r2, n)
    } else {
        None
    }
}

fn skip_union_cases(s: &[u8], p: usize, n: u32) -> (r: Option<usize>)
    requires
        p <= s@.len(),
    ensures
        match r {
            Some(q) => union_cases(s@, p as nat, n as nat) == Some(q as nat) && p <= q <= s@.len(),
            None => union_cases(s@, p as nat, n as nat) is None,
        },
{
    let mut pos = p;
    let mut k: u32 = 0;
    while k < n
        invariant
            p <= pos <= s@.len(),
            k <= n,
            union_cases(s@, p as nat, k as nat) == Some(pos as nat),
        decreases n - k,
    {
        pos = match skip_union_case(s, pos) {
            Some(x) => x,
            None => {
                proof {
                    assert(union_cases(s@, p as nat, (k + 1) as nat) is None);
                    lemma_union_cases_none(s@, p as nat, (k + 1) as nat, n as nat);
                }
                return None;
            },
        };
        k = k + 1;
    }
    Some(pos)
}

fn skip_event_param(s: &[u8], p: usize) -> (r: Option<usize>)
    requires
        p <= s@.len(),
    ensures
        match r {
            Some(q) => event_param(s@, p as nat) == Some(q as nat) && p <= q <= s@.len(),
            None => event_param(s@, p as nat) is None,
        },
{
    let (_x, q) = match read_named_type(s, p) {
        Some(x) => x,
        None => return None,
    };
    match read_u32(s, q) {
        Some((_loc, r)) => Some(r),
        None => None,
    }
}

fn skip_event_params(s: &[u8], p: usize, n: u32) -> (r: Option<usize>)
    requires
        p <= s@.len(),
    ensures
        match r {
            Some(q) => event_params(s@, p as nat, n as nat) == Some(q as nat) && p <= q <= s@.len(),
            None => event_params(s@, p as nat, n as nat) is None,
        },
{
    let mut pos = p;
    let mut k: u32 = 0;
    while k < n
        invariant
            p <= pos <= s@.len(),
            k <= n,
            event_params(s@, p as nat, k as nat) == Some(pos as nat),
        decreases n - k,
    {
        pos = match skip_event_param(s, pos) {
            Some(x) => x,
            None => {
                proof {
                    assert(event_params(s@, p as nat, (k + 1) as nat) is None);
                    lemma_event_params_none(s@, p as nat, (k + 1) as nat, n as nat);
                }
                return None;
            },
        };
        k = k + 1;
    }
    Some(pos)
}

fn skip_counted(s: &[u8], p: usize, kind: u32) -> (r: Option<usize>)
    requires
        p <= s@.len(),
    ensures
        match r {
            Some(q) => counted(s@, p as nat, kind as nat) == Some(q as nat) && p <= q <= s@.len(),
            None => counted(s@, p as nat, kind as nat) is None,
        },
{
    let (n, q) = match read_u32(s, p) {
        Some(x) => x,
        None => return None,
    };
    if kind == 0 {
        match read_named_types(s, q, n) {
            Some((_v, r)) => Some(r),
            None => None,
        }
    } else if kind == 1 {
        match read_enum_cases(s, q, n) {
            Some((_v, r)) => Some(r),
            None => None,
        }
    } else if kind == 2 {
        skip_union_cases(s, q, n)
    } else if kind == 3 {
        skip_texts(s, q, n)
    } else {
        skip_event_params(s, q, n)
    }
}


fn read_outputs(s: &[u8], p: usize) -> (r: Option<(String, usize)>)
    requires
        p <= s@.len(),
    ensures
        match r {
            Some((t, q)) => outputs(s@, p as nat) == Some((t@, q as nat)) && p <= q <= s@.len(),
            None => outputs(s@, p as nat) is None,
        },
{
    let (m, q) = match read_u32(s, p) {
        Some(x) => x,
        None => return None,
    };
    if m == 0 {
        Some((String::from_str("()"), q))
    } else if m == 1 {
        read_type(s, q, TYPE_DEPTH)
    } else {
        None
    }
}

fn read_function_body(s: &[u8], p: usize) -> (r: Option<(ContractFunction, usize)>)
    requires
        p <= s@.len(),
    ensures
        match r {
            Some((f, q)) => function_body(s@, p as nat) == Some((fn_view(f), q as nat)) && p <= q
                <= s@.len(),
            None => function_body(s@, p as nat) is None,
        },
{
    let (doc, q) = match read_text(s, p) {
        Some(x) => x,
        None => return None,
    };
    let (name, r) = match read_text(s, q) {
        Some(x) => x,
        None => return None,
    };
    let (n, r2) = match read_u32(s, r) {
        Some(x) => x,
        None => return None,
    };
    let (params, r3) = match read_named_types(s, r2, n) {
        Some(x) => x,
        None => return None,
    };
    let (return_type, e) = match read_outputs(s, r3) {
        Some(x) => x,
        None => return None,
    };
    let doc = doc_option(doc);
    let f = ContractFunction { name, params, return_type, doc };
    proof {
        assert(fn_view(f).1 == pairs_view(f.params@));
    }
    Some((f, e))
}

fn read_error_enum_body(s: &[u8], p: usize) -> (r: Option<(Vec<ContractErrorEntry>, usize)>)
    requires
        p <= s@.len(),
    ensures
        match r {
            Some((v, q)) => error_enum_body(s@, p as nat) == Some((errs_view(v@), q as nat)) && p
                <= q <= s@.len(),
            None => error_enum_body(s@, p as nat) is None,
        },
{
    let q = match skip_texts(s, p, 3) {
        Some(x) => x,
        None => return None,
    };
    let (n, r) = match read_u32(s, q) {
        Some(x) => x,
        None => return None,
    };
    read_enum_cases(s, r, n)
}

fn skip_event_body(s: &[u8], p: usize) -> (r: Option<usize>)
    requires
        p <= s@.len(),
    ensures
        match r {
            Some(q) => event_body(s@, p as nat) == Some(q as nat) && p <= q <= s@.len(),
            None => event_body(s@, p as nat) is None,
        },
{
    let q = match skip_texts(s, p, 3) {
        Some(x) => x,
        None => return None,
    };
    let r = match skip_counted(s, q, 3) {
        Some(x) => x,
        None => return None,
    };
    let r2 = match skip_counted(s, r, 4) {
        Some(x) => x,
        None => return None,
    };
    match read_u32(s, r2) {
        Some((_f, e)) => Some(e),
        None => None,
    }
}

/// What one decoded spec entry contributes.
enum DecodedItem {
    Function(ContractFunction),
    Errors(Vec<ContractErrorEntry>),
    Other,
}

spec fn item_view(i: DecodedItem) -> SpecItem {
    match i {
        DecodedItem::Function(f) => SpecItem::Function(fn_view(f)),
        DecodedItem::Errors(v) => SpecItem::Errors(errs_view(v@)),
        DecodedItem::Other => SpecItem::Other,
    }
}

fn read_spec_entry(s: &[u8], p: usize) -> (r: Option<(DecodedItem, usize)>)
    requires
        p <= s@.len(),
    ensures
        match r {
            Some((it, q)) => spec_entry(s@, p as nat) == Some((item_view(it), q as nat)) && p <= q
                <= s@.len(),
            None => spec_entry(s@, p as nat) is None,
        },
{
    let (kind, q) = match read_u32(s, p) {
        Some(x) => x,
        None => return None,
    };
    if kind == 0 {
        match read_function_body(s, q) {
            Some((f, r)) => Some((DecodedItem::Function(f), r)),
            None => None,
        }
    } else if kind == 4 {
        match read_error_enum_body(s, q) {
            Some((v, r)) => Some((DecodedItem::Errors(v), r)),
            None => None,
        }
    } else if 1 <= kind && kind <= 3 {
        let r = match skip_texts(s, q, 3) {
            Some(x) => x,
            None => return None,
        };
        let list: u32 = if kind == 1 {
            0
        } else if kind == 2 {
            2
        } else {
            1
        };
        match skip_counted(s, r, list) {
            Some(e) => Some((DecodedItem::Other, e)),
            None => None,
        }
    } else if kind == 5 {
        match skip_event_body(s, q) {
            Some(e) => Some((DecodedItem::Other, e)),
            None => None,
        }
    } else {
        None
    }
}

proof fn lemma_entries_step(
    s: Seq<u8>,
    p: nat,
    ev: Seq<ErrView>,
    fv: Seq<FnView>,
    it: SpecItem,
    q: nat,
)
    requires
        p < s.len(),
        spec_entry(s, p) == Some((it, q)),
        p < q <= s.len(),
    ensures
        spec_entries(s, p, ev, fv) == match it {
            SpecItem::Function(f) => spec_entries(s, q, ev, fv.push(f)),
            SpecItem::Errors(es) => spec_entries(s, q, ev + es, fv),
            SpecItem::Other => spec_entries(s, q, ev, fv),
        },
{
}

proof fn lemma_entries_none(s: Seq<u8>, p: nat, ev: Seq<ErrView>, fv: Seq<FnView>)
    requires
        p < s.len(),
        match spec_entry(s, p) {
            Some((_it, q)) => q <= p,
            None => true,
        },
    ensures
        spec_entries(s, p, ev, fv) is None,
{
}

/// Decodes a `contractspecv0` section, appending its error variants and its
/// functions; `false` when the section is malformed.
pub fn read_spec_section(
    data: &[u8],
    errors: &mut Vec<ContractErrorEntry>,
    functions: &mut Vec<ContractFunction>,
) -> (ok: bool)
    ensures
        match spec_entries(data@, 0, errs_view(old(errors)@), fns_view(old(functions)@)) {
            Some((e, f)) => ok && errs_view(final(errors)@) == e && fns_view(final(functions)@)
                == f,
            None => !ok,
        },
{
    let ghost e0 = errs_view(errors@);
    let ghost f0 = fns_view(functions@);
    let mut pos: usize = 0;
    while pos < data.len()
        invariant
            pos <= data@.len(),
            e0 == errs_view(old(errors)@),
            f0 == fns_view(old(functions)@),
            spec_entries(data@, 0, e0, f0) == spec_entries(
                data@,
                pos as nat,
                errs_view(errors@),
                fns_view(functions@),
            ),
        decreases data@.len() - pos,
    {
        let ghost ev = errs_view(errors@);
        let ghost fv = fns_view(functions@);
        let (item, q) = match read_spec_entry(data, pos) {
            Some(x) => x,
            None => {
                proof {
                    lemma_entries_none(data@, pos as nat, ev, fv);
                }
                return false;
            },
        };
        if q <= pos {
            proof {
                lemma_entries_none(data@, pos as nat, ev, fv);
            }
            return false;
        }
        proof {
            lemma_entries_step(data@, pos as nat, ev, fv, item_view(item), q as nat);
        }
        match item {
            DecodedItem::Function(f) => {
                let ghost v = fn_view(f);
                functions.push(f);
                proof {
                    assert(fns_view(functions@) =~= fv.push(v));
                }
            },
            DecodedItem::Errors(mut es) => {
                let ghost esv = errs_view(es@);
                errors.append(&mut es);
                proof {
                    assert(errs_view(errors@) =~= ev + esv);
                }
            },
            DecodedItem::Other => {},
        }
        pos = q;
    }
    true
}

/// Decodes a `contractmetav0` section, setting the name and version it
/// declares; `false` when the section is malformed.
pub fn read_meta_section(
    data: &[u8],
    name: &mut Option<String>,
    version: &mut Option<String>,
) -> (ok: bool)
    ensures
        match meta_entries(data@, 0, opt_view(*old(name)), opt_view(*old(version))) {
            Some((n, v)) => ok && opt_view(*final(name)) == n && opt_view(*final(version)) == v,
            None => !ok,
        },
{
    let ghost n0 = opt_view(*name);
    let ghost v0 = opt_view(*version);
    let mut pos: usize = 0;
    while pos < data.len()
        invariant
            pos <= data@.len(),
            n0 == opt_view(*old(name)),
            v0 == opt_view(*old(version)),
            meta_entries(data@, 0, n0, v0) == meta_entries(
                data@,
                pos as nat,
                opt_view(*name),
                opt_view(*version),
            ),
        decreases data@.len() - pos,
    {
        let (kind, q) = match read_u32(data, pos) {
            Some(x) => x,
            None => return false,
        };
        if kind != 0 {
            return false;
        }
        let (k, r) = match read_text(data, q) {
            Some(x) => x,
            None => return false,
        };
        let (v, e) = match read_text(data, r) {
            Some(x) => x,
            None => return false,
        };
        let is_name = str_eq(k.as_str(), "name");
        let is_version = str_eq(k.as_str(), "version") || str_eq(k.as_str(), "binver");
        if is_name {
            *name = Some(v.clone());
        }
        if is_version {
            *version = Some(v);
        }
        pos = e;
    }
    true
}

} // verus!
