//! Address types for Stellar accounts and contracts.
//!
//! An address holds the raw bytes of an account public key or a contract ID
//! and displays as the standard strkey text (SEP-23).
use vstd::prelude::*;
use vstd::string::*;
use crate::text::push_str;

verus! {

/// The type of Stellar address.
#[derive(Debug, Clone, Copy, PartialEq, Eq, Hash)]
pub enum AddressType {
    /// Account public key (starts with 'G').
    Account,
    /// Contract ID (starts with 'C').
    Contract,
}

/// Represents a Stellar address (account or contract).
///
/// Internally stores the raw bytes, but displays as the standard strkey format.
#[derive(Debug, Clone, PartialEq, Eq, Hash)]
pub struct Address {
    /// The raw bytes of the address.
    pub bytes: Vec<u8>,
    /// The type of address (for strkey encoding).
    pub address_type: AddressType,
}

/// What `stellar_strkey::Contract::from_string` decodes a text to: the 32
/// payload bytes of a valid contract strkey, or `None`.
pub uninterp spec fn contract_strkey_payload(s: Seq<char>) -> Option<Seq<u8>>;

/// What `stellar_strkey::ed25519::PublicKey::from_string` decodes a text to:
/// the 32 payload bytes of a valid account strkey, or `None`.
pub uninterp spec fn account_strkey_payload(s: Seq<char>) -> Option<Seq<u8>>;

/// The strkey text `stellar_strkey::Contract` displays for 32 bytes.
pub uninterp spec fn contract_strkey_text(bytes: Seq<u8>) -> Seq<char>;

/// The strkey text `stellar_strkey::ed25519::PublicKey` displays for 32 bytes.
pub uninterp spec fn account_strkey_text(bytes: Seq<u8>) -> Seq<char>;

/// `stellar_strkey::Contract::from_string`: the payload of a valid contract
/// strkey (always 32 bytes), or `None` for any other text. Decoding accepts
/// only canonical unpadded upper-case base32 with the contract version byte
/// and a matching checksum, so an accepted text is exactly the encoding of its
/// payload: 56 characters starting with `C`.
#[verifier::external_body]
fn decode_contract_strkey(s: &str) -> (r: Option<Vec<u8>>)
    ensures
        match r {
            Some(v) => contract_strkey_payload(s@) == Some(v@) && v@.len() == 32
                && contract_strkey_text(v@) == s@ && s@.len() == 56 && s@[0] == 'C',
            None => contract_strkey_payload(s@) is None,
        },
{
    stellar_strkey::Contract::from_string(s).ok().map(|c| c.0.to_vec())
}

/// `stellar_strkey::ed25519::PublicKey::from_string`: the payload of a valid
/// account strkey (always 32 bytes), or `None` for any other text. Decoding
/// accepts only canonical unpadded upper-case base32 with the ed25519 public
/// key version byte and a matching checksum, so an accepted text is exactly
/// the encoding of its payload: 56 characters starting with `G`.
#[verifier::external_body]
fn decode_account_strkey(s: &str) -> (r: Option<Vec<u8>>)
    ensures
        match r {
            Some(v) => account_strkey_payload(s@) == Some(v@) && v@.len() == 32
                && account_strkey_text(v@) == s@ && s@.len() == 56 && s@[0] == 'G',
            None => account_strkey_payload(s@) is None,
        },
{
    stellar_strkey::ed25519::PublicKey::from_string(s).ok().map(|k| k.0.to_vec())
}

/// `stellar_strkey::Contract(bytes).to_string()`: 56 base32 characters
/// (`Contract::ENCODED_LEN`), the first `C` from the contract version byte.
/// The text carries that version byte, so it decodes back to the same bytes
/// as a contract strkey and is rejected as an account strkey.
#[verifier::external_body]
fn encode_contract_strkey(bytes: &Vec<u8>) -> (r: String)
    requires
        bytes@.len() == 32,
    ensures
        r@ == contract_strkey_text(bytes@),
        r@.len() == 56,
        r@[0] == 'C',
        contract_strkey_payload(r@) == Some(bytes@),
        account_strkey_payload(r@) is None,
{
    let raw: [u8; 32] = bytes.as_slice().try_into().unwrap();
    stellar_strkey::Contract(raw).to_string().as_str().to_string()
}

/// `stellar_strkey::ed25519::PublicKey(bytes).to_string()`: 56 base32
/// characters (`PublicKey::ENCODED_LEN`), the first `G` from the ed25519
/// public key version byte. The text carries that version byte, so it decodes
/// back to the same bytes as an account strkey and is rejected as a contract
/// strkey.
#[verifier::external_body]
fn encode_account_strkey(bytes: &Vec<u8>) -> (r: String)
    requires
        bytes@.len() == 32,
    ensures
        r@ == account_strkey_text(bytes@),
        r@.len() == 56,
        r@[0] == 'G',
        account_strkey_payload(r@) == Some(bytes@),
        contract_strkey_payload(r@) is None,
{
    let raw: [u8; 32] = bytes.as_slice().try_into().unwrap();
    stellar_strkey::ed25519::PublicKey(raw).to_string().as_str().to_string()
}

/// The mathematical content of an address.
pub open spec fn address_view(a: Address) -> (Seq<u8>, AddressType) {
    (a.bytes@, a.address_type)
}

/// What `from_strkey` gives for a text, from what the two decoders make of
/// it: a contract when it is a contract strkey, else an account when it is
/// an account strkey, else an error naming the text.
pub open spec fn from_strkey_spec(
    s: Seq<char>,
    contract: Option<Seq<u8>>,
    account: Option<Seq<u8>>,
) -> Result<(Seq<u8>, AddressType), Seq<char>> {
    match contract {
        Some(b) => Ok((b, AddressType::Contract)),
        None => match account {
            Some(b) => Ok((b, AddressType::Account)),
            None => Err("Invalid strkey: "@ + s),
        },
    }
}

/// The contents of optional bytes.
pub open spec fn bytes_opt(o: Option<Vec<u8>>) -> Option<Seq<u8>> {
    match o {
        Some(v) => Some(v@),
        None => None,
    }
}

/// The strkey text of an address.
pub open spec fn to_strkey_spec(bytes: Seq<u8>, t: AddressType) -> Seq<char> {
    match t {
        AddressType::Account => account_strkey_text(bytes),
        AddressType::Contract => contract_strkey_text(bytes),
    }
}

impl Address {
    /// Create a new Address from raw bytes.
    pub fn new(bytes: Vec<u8>, address_type: AddressType) -> (a: Self)
        ensures
            a.bytes == bytes,
            a.address_type == address_type,
    {
        Self { bytes, address_type }
    }

    /// Builds the result of `from_strkey` from what the contract and account
    /// decoders made of `strkey`.
    pub fn from_decoded(strkey: &str, contract: Option<Vec<u8>>, account: Option<Vec<u8>>) -> (r:
        Result<Self, String>)
        ensures
            match r {
                Ok(a) => from_strkey_spec(strkey@, bytes_opt(contract), bytes_opt(account)) == Ok::<_, Seq<char>>(address_view(a)),
                Err(e) => from_strkey_spec(strkey@, bytes_opt(contract), bytes_opt(account)) == Err::<(Seq<u8>, AddressType), _>(e@),
            },
    {
        match contract {
            Some(bytes) => Ok(Self { bytes, address_type: AddressType::Contract }),
            None => match account {
                Some(bytes) => Ok(Self { bytes, address_type: AddressType::Account }),
                None => {
                    let mut msg = String::from_str("Invalid strkey: ");
                    push_str(&mut msg, strkey);
                    Err(msg)
                },
            },
        }
    }

    /// Create an Address from a strkey string.
    pub fn from_strkey(strkey: &str) -> (r: Result<Self, String>)
        ensures
            match r {
                Ok(a) => from_strkey_spec(strkey@, contract_strkey_payload(strkey@), account_strkey_payload(strkey@)) == Ok::<_, Seq<char>>(address_view(a)),
                Err(e) => from_strkey_spec(strkey@, contract_strkey_payload(strkey@), account_strkey_payload(strkey@)) == Err::<(Seq<u8>, AddressType), _>(e@),
            },
            r matches Ok(a) ==> a.bytes@.len() == 32,
            r matches Ok(a) ==> to_strkey_spec(a.bytes@, a.address_type) == strkey@,
            r matches Ok(a) ==> strkey@.len() == 56 && (a.address_type == AddressType::Contract
                <==> strkey@[0] == 'C') && (a.address_type == AddressType::Account <==> strkey@[0]
                == 'G'),
    {
        let contract = decode_contract_strkey(strkey);
        let account = if contract.is_none() {
            decode_account_strkey(strkey)
        } else {
            None
        };
        Self::from_decoded(strkey, contract, account)
    }

    /// Convert to strkey string.
    pub fn to_strkey(&self) -> (s: String)
        requires
            self.bytes@.len() == 32,
        ensures
            s@ == to_strkey_spec(self.bytes@, self.address_type),
            s@.len() == 56,
            self.address_type == AddressType::Account ==> s@[0] == 'G',
            self.address_type == AddressType::Contract ==> s@[0] == 'C',
            from_strkey_spec(s@, contract_strkey_payload(s@), account_strkey_payload(s@)) == Ok::<_, Seq<char>>(address_view(*self)),
    {
        match self.address_type {
            AddressType::Account => encode_account_strkey(&self.bytes),
            AddressType::Contract => encode_contract_strkey(&self.bytes),
        }
    }

    /// The strkey text of an address, as it displays.
    pub fn into_string(self) -> (s: String)
        requires
            self.bytes@.len() == 32,
        ensures
            s@ == to_strkey_spec(self.bytes@, self.address_type),
    {
        self.to_strkey()
    }
}

} // verus!
