//! The address encoder: from a synthetic public key to its puzzle hash, and
//! from a puzzle hash to the address that is shown to people, and back.
//!
//! The puzzle hash is computed by the `chia` crate and the checksummed
//! base-32 text by the `bech32` crate; both results are named here by
//! uninterpreted functions.

use crate::keys::{public_key_accepted, PublicKey};
use vstd::prelude::*;
use vstd::string::*;

verus! {

/// The bytes of the tree hash that
/// `chia::puzzles::standard::StandardArgs::curry_tree_hash` computes for the
/// synthetic public key with bytes `synthetic`.
pub uninterp spec fn standard_puzzle_hash(synthetic: Seq<u8>) -> Seq<u8>;

/// The text that `bech32::encode` with the `Bech32m` checksum makes of a
/// human-readable part and data, where it makes one.
pub uninterp spec fn bech32m_encoding(hrp: Seq<char>, data: Seq<u8>) -> Seq<char>;

/// The human-readable part, in lower case, and the data that
/// `bech32::primitives::decode::CheckedHrpstring` reads from a text with a
/// valid `Bech32m` checksum; `None` for any other text.
pub uninterp spec fn bech32m_decoding(text: Seq<char>) -> Option<(Seq<char>, Seq<u8>)>;

/// The number of bytes of a puzzle hash.
pub const PUZZLE_HASH_LEN: usize = 32;

/// The longest text that the checksum is designed to protect.
pub const BECH32M_CODE_LEN: usize = 1023;

/// The human-readable part of every address: the network prefix.
pub open spec fn address_prefix() -> Seq<char> {
    seq!['x', 'c', 'h']
}

/// The `i`-th character is an upper-case letter of ASCII.
pub open spec fn is_upper_at(text: Seq<char>, i: int) -> bool {
    'A' <= text[i] <= 'Z'
}

/// The `i`-th character is a lower-case letter of ASCII.
pub open spec fn is_lower_at(text: Seq<char>, i: int) -> bool {
    'a' <= text[i] <= 'z'
}

/// The `i`-th character is a printable character of ASCII other than space.
pub open spec fn is_printable_at(text: Seq<char>, i: int) -> bool {
    33 <= text[i] as u32 <= 126
}

/// The text holds no upper-case letter of ASCII.
pub open spec fn no_upper_case(text: Seq<char>) -> bool {
    forall|i: int| 0 <= i < text.len() ==> !#[trigger] is_upper_at(text, i)
}

/// What `bech32::Hrp::parse` accepts: 1 to 83 printable characters of ASCII
/// that do not mix upper and lower case.
pub open spec fn hrp_valid(hrp: Seq<char>) -> bool {
    &&& 1 <= hrp.len() <= 83
    &&& forall|i: int| 0 <= i < hrp.len() ==> #[trigger] is_printable_at(hrp, i)
    &&& !((exists|i: int| 0 <= i < hrp.len() && #[trigger] is_upper_at(hrp, i)) && (exists|
        i: int,
    | 0 <= i < hrp.len() && #[trigger] is_lower_at(hrp, i)))
}

/// The length of the encoded text: the human-readable part, the separator,
/// one character for every five bits of data, and six characters of checksum.
pub open spec fn encoded_len(hrp_len: nat, data_len: nat) -> nat {
    hrp_len + 1 + (data_len * 8 + 4) / 5 + 6
}

/// Why a text is not an address.
#[derive(Debug, Clone, Copy, PartialEq, Eq)]
pub enum AddressError {
    /// The text is not well formed or its checksum does not hold.
    Malformed,
    /// The text is for another network.
    WrongPrefix,
    /// The text does not hold a puzzle hash of 32 bytes.
    WrongLength,
    /// The network prefix is not a valid human-readable part.
    InvalidPrefix,
}

/// A puzzle hash: the 32 bytes that commit to a locking condition.
#[derive(Debug, Clone, Copy, PartialEq, Eq)]
pub struct Bytes32(pub [u8; 32]);

impl View for Bytes32 {
    type V = Seq<u8>;

    open spec fn view(&self) -> Seq<u8> {
        self.0@
    }
}

impl Bytes32 {
    /// Wraps 32 bytes.
    pub fn new(bytes: [u8; 32]) -> (hash: Bytes32)
        ensures
            hash@ == bytes@,
    {
        Bytes32(bytes)
    }

    /// The 32 bytes.
    pub fn to_bytes(&self) -> (bytes: [u8; 32])
        ensures
            bytes@ == self@,
    {
        self.0
    }
}

/// The puzzle hash that an address of the network with the given prefix
/// stands for, or why the text is no such address.
pub open spec fn payload_for(text: Seq<char>, prefix: Seq<char>) -> Result<
    Seq<u8>,
    AddressError,
> {
    match bech32m_decoding(text) {
        None => Err(AddressError::Malformed),
        Some((hrp, data)) => if hrp != prefix {
            Err(AddressError::WrongPrefix)
        } else if data.len() != PUZZLE_HASH_LEN {
            Err(AddressError::WrongLength)
        } else {
            Ok(data)
        },
    }
}

/// The puzzle hash that an address of the `xch` network stands for, or why the
/// text is no such address.
pub open spec fn address_payload(text: Seq<char>) -> Result<Seq<u8>, AddressError> {
    payload_for(text, address_prefix())
}

/// Calls `StandardArgs::curry_tree_hash` of `chia::puzzles::standard` with the
/// key that these bytes encode.
#[verifier::external_body]
fn standard_curry_tree_hash(synthetic: &[u8; 48]) -> (hash: [u8; 32])
    requires
        public_key_accepted(synthetic@),
    ensures
        hash@ == standard_puzzle_hash(synthetic@),
{
    let key = chia::bls::PublicKey::from_bytes(synthetic).unwrap();
    chia::puzzles::standard::StandardArgs::curry_tree_hash(key).to_bytes()
}

/// Calls `bech32::Hrp::parse` and `bech32::encode` with the `Bech32m`
/// checksum.
///
/// A text comes back exactly where the human-readable part is valid and the
/// text stays within the code length. Decoding that text gives the data back,
/// and the human-readable part as it was given if it holds no upper case.
#[verifier::external_body]
fn bech32m_encode(hrp: &str, data: &[u8]) -> (text: Option<String>)
    requires
        data@.len() <= 0x0fff_ffff,
    ensures
        text is Some <==> (hrp_valid(hrp@) && encoded_len(hrp@.len(), data@.len())
            <= BECH32M_CODE_LEN),
        text matches Some(t) ==> t@ == bech32m_encoding(hrp@, data@),
        text matches Some(t) ==> (no_upper_case(hrp@) ==> bech32m_decoding(t@) == Some(
            (hrp@, data@),
        )),
{
    match bech32::Hrp::parse(hrp) {
        Ok(parsed) => bech32::encode::<bech32::Bech32m>(parsed, data).ok(),
        Err(_) => None,
    }
}

/// Calls `bech32::primitives::decode::CheckedHrpstring::new` with the
/// `Bech32m` checksum, then `Hrp::to_lowercase` and `byte_iter` on what it
/// read.
#[verifier::external_body]
fn bech32m_decode(text: &str) -> (parts: Option<(String, Vec<u8>)>)
    ensures
        parts is Some <==> bech32m_decoding(text@) is Some,
        parts matches Some((hrp, data)) ==> bech32m_decoding(text@) == Some((hrp@, data@)),
{
    match bech32::primitives::decode::CheckedHrpstring::new::<bech32::Bech32m>(text) {
        Ok(checked) => Some((checked.hrp().to_lowercase(), checked.byte_iter().collect())),
        Err(_) => None,
    }
}

/// The puzzle hash of the standard single-signature puzzle that is locked to
/// the given synthetic public key.
pub fn to_puzzle_hash(synthetic: &PublicKey) -> (hash: Bytes32)
    ensures
        hash@ == standard_puzzle_hash(synthetic@),
{
    let bytes = synthetic.to_bytes();
    Bytes32(standard_curry_tree_hash(&bytes))
}

proof fn lemma_prefix_is_valid()
    ensures
        hrp_valid(address_prefix()),
        no_upper_case(address_prefix()),
        "xch"@ == address_prefix(),
{
    reveal_strlit("xch");
    let p = address_prefix();
    assert("xch"@ =~= p);
    assert(p[0] == 'x' && p[1] == 'c' && p[2] == 'h');
    assert forall|i: int| 0 <= i < p.len() implies is_printable_at(p, i) && !is_upper_at(p, i) by {
        if i == 0 {
        } else if i == 1 {
        } else {
        }
    }
}

/// Encodes a puzzle hash as an address of the network with the given prefix.
///
/// The prefix has to be a valid human-readable part. Decoding the address
/// with a prefix without upper case gives the puzzle hash back.
pub fn encode_address_for(puzzle_hash: Bytes32, prefix: &str) -> (r: Result<String, AddressError>)
    ensures
        r is Ok <==> hrp_valid(prefix@),
        r matches Ok(address) ==> address@ == bech32m_encoding(prefix@, puzzle_hash@),
        r matches Ok(address) ==> (no_upper_case(prefix@) ==> payload_for(address@, prefix@)
            == Ok::<Seq<u8>, AddressError>(puzzle_hash@)),
        r matches Err(e) ==> e == AddressError::InvalidPrefix,
{
    let bytes = puzzle_hash.to_bytes();
    match bech32m_encode(prefix, bytes.as_slice()) {
        Some(address) => Ok(address),
        None => Err(AddressError::InvalidPrefix),
    }
}

/// Encodes a puzzle hash as an address of the `xch` network.
///
/// Decoding the address gives the puzzle hash back.
pub fn encode_address(puzzle_hash: Bytes32) -> (address: String)
    ensures
        address@ == bech32m_encoding(address_prefix(), puzzle_hash@),
        address_payload(address@) == Ok::<Seq<u8>, AddressError>(puzzle_hash@),
{
    proof {
        lemma_prefix_is_valid();
    }
    match encode_address_for(puzzle_hash, "xch") {
        Ok(address) => address,
        Err(_) => vstd::pervasive::unreached(),
    }
}

/// Decodes an address of the network with the given prefix to its puzzle
/// hash. The prefix is compared with the human-readable part in lower case.
pub fn decode_address_for(address: &str, prefix: &str) -> (r: Result<Bytes32, AddressError>)
    ensures
        r matches Ok(hash) ==> payload_for(address@, prefix@) == Ok::<Seq<u8>, AddressError>(
            hash@,
        ),
        r matches Err(e) ==> payload_for(address@, prefix@) == Err::<Seq<u8>, AddressError>(e),
{
    match bech32m_decode(address) {
        None => Err(AddressError::Malformed),
        Some((hrp, data)) => {
            if !(hrp == String::from_str(prefix)) {
                return Err(AddressError::WrongPrefix);
            }
            if data.len() != PUZZLE_HASH_LEN {
                return Err(AddressError::WrongLength);
            }
            let mut bytes: [u8; 32] = [0u8; 32];
            let mut i: usize = 0;
            while i < PUZZLE_HASH_LEN
                invariant
                    0 <= i <= PUZZLE_HASH_LEN,
                    data@.len() == PUZZLE_HASH_LEN,
                    forall|k: int| 0 <= k < i ==> bytes@[k] == data@[k],
                decreases PUZZLE_HASH_LEN - i,
            {
                bytes[i] = data[i];
                i = i + 1;
            }
            assert(bytes@ =~= data@);
            Ok(Bytes32(bytes))
        },
    }
}

/// Decodes an address of the `xch` network to its puzzle hash.
pub fn decode_address(address: &str) -> (r: Result<Bytes32, AddressError>)
    ensures
        r matches Ok(hash) ==> address_payload(address@) == Ok::<Seq<u8>, AddressError>(hash@),
        r matches Err(e) ==> address_payload(address@) == Err::<Seq<u8>, AddressError>(e),
{
    proof {
        lemma_prefix_is_valid();
    }
    decode_address_for(address, "xch")
}

} // verus!
