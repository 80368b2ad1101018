//! The key derivation engine.
//!
//! A master secret key is expanded from a seed. From it come the two wallet
//! intermediates (hardened, from the secret key; unhardened, from the public
//! key alone), the farmer and pool keys at their fixed paths, and for every
//! index a synthetic public key.
//!
//! Keys are held as their canonical byte encodings: 32 bytes for a secret key,
//! 48 bytes for a public key. The BLS arithmetic itself is done by the `chia`
//! crate; what it returns is named here by uninterpreted functions of those
//! bytes, and every contract in this module is stated over these names.

use crate::hexadecimal::{hex_encode, hex_text};
use vstd::prelude::*;

verus! {

/// Whether `chia::bls::SecretKey::from_bytes` accepts these 32 bytes.
pub uninterp spec fn secret_key_accepted(bytes: Seq<u8>) -> bool;

/// Whether `chia::bls::PublicKey::from_bytes` accepts these 48 bytes.
pub uninterp spec fn public_key_accepted(bytes: Seq<u8>) -> bool;

/// The bytes of the key that `chia::bls::SecretKey::from_seed` makes of a seed.
pub uninterp spec fn master_secret(seed: Seq<u8>) -> Seq<u8>;

/// The bytes of the key that `chia::bls::SecretKey::derive_hardened` derives
/// from the secret key with bytes `parent`.
pub uninterp spec fn hardened_child(parent: Seq<u8>, index: u32) -> Seq<u8>;

/// The bytes of the key that `chia::bls::DerivableKey::derive_unhardened`
/// derives from the public key with bytes `parent`.
pub uninterp spec fn unhardened_child(parent: Seq<u8>, index: u32) -> Seq<u8>;

/// The bytes of the public key that `chia::bls::SecretKey::public_key` gives
/// for the secret key with bytes `secret`.
pub uninterp spec fn public_of(secret: Seq<u8>) -> Seq<u8>;

/// What `chia::bls::PublicKey::get_fingerprint` gives for the public key with
/// bytes `public`.
pub uninterp spec fn fingerprint_of(public: Seq<u8>) -> u32;

/// The bytes of the key that `chia::puzzles::DeriveSynthetic::derive_synthetic`
/// makes of the secret key with bytes `secret`.
pub uninterp spec fn synthetic_secret(secret: Seq<u8>) -> Seq<u8>;

/// The bytes of the key that `chia::puzzles::DeriveSynthetic::derive_synthetic`
/// makes of the public key with bytes `public`.
pub uninterp spec fn synthetic_public(public: Seq<u8>) -> Seq<u8>;

/// The first segment of every derivation path: the signature scheme.
pub const PURPOSE: u32 = 12381;

/// The second segment of every derivation path: the coin type.
pub const COIN_TYPE: u32 = 8444;

/// The third segment of the wallet paths.
pub const WALLET_ACCOUNT: u32 = 2;

/// The third segment of the farmer path.
pub const FARMER_ACCOUNT: u32 = 0;

/// The third segment of the pool path.
pub const POOL_ACCOUNT: u32 = 1;

/// The smallest seed, in bytes, that a master key can be expanded from.
pub const MIN_SEED_LEN: usize = 32;

/// The path of the two wallet intermediates.
pub open spec fn wallet_path() -> Seq<u32> {
    seq![PURPOSE, COIN_TYPE, WALLET_ACCOUNT]
}

/// The path of the farmer key.
pub open spec fn farmer_path() -> Seq<u32> {
    seq![PURPOSE, COIN_TYPE, FARMER_ACCOUNT, 0u32]
}

/// The path of the pool key.
pub open spec fn pool_path() -> Seq<u32> {
    seq![PURPOSE, COIN_TYPE, POOL_ACCOUNT, 0u32]
}

/// The secret key reached from `key` by one hardened step per segment of
/// `path`, first segment first.
pub open spec fn hardened_path(key: Seq<u8>, path: Seq<u32>) -> Seq<u8>
    decreases path.len(),
{
    if path.len() == 0 {
        key
    } else {
        hardened_child(hardened_path(key, path.drop_last()), path.last())
    }
}

/// The public key reached from `key` by one unhardened step per segment of
/// `path`, first segment first.
pub open spec fn unhardened_path(key: Seq<u8>, path: Seq<u32>) -> Seq<u8>
    decreases path.len(),
{
    if path.len() == 0 {
        key
    } else {
        unhardened_child(unhardened_path(key, path.drop_last()), path.last())
    }
}

/// A hardened path of three segments is three hardened steps.
pub proof fn lemma_hardened_path_of_three(key: Seq<u8>, a: u32, b: u32, c: u32)
    ensures
        hardened_path(key, seq![a, b, c]) == hardened_child(
            hardened_child(hardened_child(key, a), b),
            c,
        ),
{
    let three = seq![a, b, c];
    let two = seq![a, b];
    let one = seq![a];
    assert(three.drop_last() =~= two);
    assert(two.drop_last() =~= one);
    assert(one.drop_last() =~= Seq::<u32>::empty());
    assert(hardened_path(key, one) == hardened_child(hardened_path(key, one.drop_last()), a));
    assert(hardened_path(key, two) == hardened_child(hardened_path(key, two.drop_last()), b));
    assert(hardened_path(key, three) == hardened_child(hardened_path(key, three.drop_last()), c));
}

/// An unhardened path of three segments is three unhardened steps.
pub proof fn lemma_unhardened_path_of_three(key: Seq<u8>, a: u32, b: u32, c: u32)
    ensures
        unhardened_path(key, seq![a, b, c]) == unhardened_child(
            unhardened_child(unhardened_child(key, a), b),
            c,
        ),
{
    let three = seq![a, b, c];
    let two = seq![a, b];
    let one = seq![a];
    assert(three.drop_last() =~= two);
    assert(two.drop_last() =~= one);
    assert(one.drop_last() =~= Seq::<u32>::empty());
    assert(unhardened_path(key, one) == unhardened_child(
        unhardened_path(key, one.drop_last()),
        a,
    ));
    assert(unhardened_path(key, two) == unhardened_child(
        unhardened_path(key, two.drop_last()),
        b,
    ));
    assert(unhardened_path(key, three) == unhardened_child(
        unhardened_path(key, three.drop_last()),
        c,
    ));
}

/// Why a key could not be made.
#[derive(Debug, Clone, Copy, PartialEq, Eq)]
pub enum KeyDerivationError {
    /// The seed is shorter than `MIN_SEED_LEN` bytes.
    SeedTooShort,
    /// The bytes are not the encoding of a secret key.
    InvalidSecretKey,
    /// The bytes are not the encoding of a public key.
    InvalidPublicKey,
}

/// Calls `chia::bls::SecretKey::from_bytes` and says whether it accepted.
#[verifier::external_body]
fn bls_accepts_secret(bytes: &[u8; 32]) -> (accepted: bool)
    ensures
        accepted == secret_key_accepted(bytes@),
{
    chia::bls::SecretKey::from_bytes(bytes).is_ok()
}

/// Calls `chia::bls::PublicKey::from_bytes` and says whether it accepted.
#[verifier::external_body]
fn bls_accepts_public(bytes: &[u8; 48]) -> (accepted: bool)
    ensures
        accepted == public_key_accepted(bytes@),
{
    chia::bls::PublicKey::from_bytes(bytes).is_ok()
}

/// Calls `chia::bls::SecretKey::from_seed`, which panics on a seed of fewer
/// than 32 bytes. The key it returns was read from its own byte encoding, so
/// these bytes are accepted as a secret key.
#[verifier::external_body]
fn bls_master_secret(seed: &[u8]) -> (key: [u8; 32])
    requires
        seed@.len() >= MIN_SEED_LEN,
    ensures
        key@ == master_secret(seed@),
        secret_key_accepted(key@),
{
    chia::bls::SecretKey::from_seed(seed).to_bytes()
}

/// Calls `chia::bls::SecretKey::derive_hardened`. The child is made by
/// `from_seed`, so its bytes are accepted as a secret key.
#[verifier::external_body]
fn bls_hardened_child(parent: &[u8; 32], index: u32) -> (child: [u8; 32])
    requires
        secret_key_accepted(parent@),
    ensures
        child@ == hardened_child(parent@, index),
        secret_key_accepted(child@),
{
    chia::bls::SecretKey::from_bytes(parent).unwrap().derive_hardened(index).to_bytes()
}

/// Calls `chia::bls::DerivableKey::derive_unhardened` on a public key. The
/// child is the sum of two group elements, so its bytes are accepted as a
/// public key.
#[verifier::external_body]
fn bls_unhardened_child(parent: &[u8; 48], index: u32) -> (child: [u8; 48])
    requires
        public_key_accepted(parent@),
    ensures
        child@ == unhardened_child(parent@, index),
        public_key_accepted(child@),
{
    let key = chia::bls::PublicKey::from_bytes(parent).unwrap();
    chia::bls::DerivableKey::derive_unhardened(&key, index).to_bytes()
}

/// Calls `chia::bls::SecretKey::public_key`. The result is a multiple of the
/// group's generator, so its bytes are accepted as a public key.
#[verifier::external_body]
fn bls_public_of(secret: &[u8; 32]) -> (public: [u8; 48])
    requires
        secret_key_accepted(secret@),
    ensures
        public@ == public_of(secret@),
        public_key_accepted(public@),
{
    chia::bls::SecretKey::from_bytes(secret).unwrap().public_key().to_bytes()
}

/// Calls `chia::bls::PublicKey::get_fingerprint`.
#[verifier::external_body]
fn bls_fingerprint(public: &[u8; 48]) -> (fingerprint: u32)
    requires
        public_key_accepted(public@),
    ensures
        fingerprint == fingerprint_of(public@),
{
    chia::bls::PublicKey::from_bytes(public).unwrap().get_fingerprint()
}

/// Calls `chia::bls::master_to_wallet_hardened_intermediate`, which takes
/// the hardened steps 12381, 8444 and 2 from the given key.
#[verifier::external_body]
fn bls_wallet_hardened_intermediate(master: &[u8; 32]) -> (key: [u8; 32])
    requires
        secret_key_accepted(master@),
    ensures
        key@ == hardened_child(
            hardened_child(hardened_child(master@, 12381u32), 8444u32),
            2u32,
        ),
        secret_key_accepted(key@),
{
    let master = chia::bls::SecretKey::from_bytes(master).unwrap();
    chia::bls::master_to_wallet_hardened_intermediate(&master).to_bytes()
}

/// Calls `chia::bls::master_to_wallet_unhardened_intermediate` on a public
/// key, which takes the unhardened steps 12381, 8444 and 2 from the given key.
#[verifier::external_body]
fn bls_wallet_unhardened_intermediate(master: &[u8; 48]) -> (key: [u8; 48])
    requires
        public_key_accepted(master@),
    ensures
        key@ == unhardened_child(
            unhardened_child(unhardened_child(master@, 12381u32), 8444u32),
            2u32,
        ),
        public_key_accepted(key@),
{
    let master = chia::bls::PublicKey::from_bytes(master).unwrap();
    chia::bls::master_to_wallet_unhardened_intermediate(&master).to_bytes()
}

/// Calls `chia::puzzles::DeriveSynthetic::derive_synthetic` on a secret key.
/// The result is a sum of two scalars of the group, so its bytes are accepted
/// as a secret key.
#[verifier::external_body]
fn puzzle_synthetic_secret(secret: &[u8; 32]) -> (key: [u8; 32])
    requires
        secret_key_accepted(secret@),
    ensures
        key@ == synthetic_secret(secret@),
        secret_key_accepted(key@),
{
    let secret = chia::bls::SecretKey::from_bytes(secret).unwrap();
    chia::puzzles::DeriveSynthetic::derive_synthetic(&secret).to_bytes()
}

/// Calls `chia::puzzles::DeriveSynthetic::derive_synthetic` on a public key.
/// The result is a sum of two group elements, so its bytes are accepted as a
/// public key.
#[verifier::external_body]
fn puzzle_synthetic_public(public: &[u8; 48]) -> (key: [u8; 48])
    requires
        public_key_accepted(public@),
    ensures
        key@ == synthetic_public(public@),
        public_key_accepted(key@),
{
    let public = chia::bls::PublicKey::from_bytes(public).unwrap();
    chia::puzzles::DeriveSynthetic::derive_synthetic(&public).to_bytes()
}

/// A secret key, held as the 32 bytes of its encoding.
#[derive(Debug, PartialEq, Eq)]
pub struct SecretKey {
    bytes: [u8; 32],
}

impl Clone for SecretKey {
    fn clone(&self) -> (copy: SecretKey)
        ensures
            copy == *self,
    {
        proof {
            use_type_invariant(self);
        }
        SecretKey { bytes: self.bytes }
    }
}

/// A public key, held as the 48 bytes of its compressed encoding.
#[derive(Debug, Clone, Copy, PartialEq, Eq)]
pub struct PublicKey {
    bytes: [u8; 48],
}

impl View for SecretKey {
    type V = Seq<u8>;

    closed spec fn view(&self) -> Seq<u8> {
        self.bytes@
    }
}

impl View for PublicKey {
    type V = Seq<u8>;

    closed spec fn view(&self) -> Seq<u8> {
        self.bytes@
    }
}

impl SecretKey {
    #[verifier::type_invariant]
    spec fn well_formed(self) -> bool {
        secret_key_accepted(self.bytes@)
    }

    /// Reads a secret key from its encoding.
    pub fn from_bytes(bytes: &[u8; 32]) -> (r: Result<SecretKey, KeyDerivationError>)
        ensures
            r is Ok <==> secret_key_accepted(bytes@),
            r matches Ok(key) ==> key@ == bytes@,
            r matches Err(e) ==> e == KeyDerivationError::InvalidSecretKey,
    {
        if bls_accepts_secret(bytes) {
            Ok(SecretKey { bytes: *bytes })
        } else {
            Err(KeyDerivationError::InvalidSecretKey)
        }
    }

    /// Expands a seed of at least `MIN_SEED_LEN` bytes to a master secret key.
    pub fn from_seed(seed: &[u8]) -> (r: Result<SecretKey, KeyDerivationError>)
        ensures
            r is Ok <==> seed@.len() >= MIN_SEED_LEN,
            r matches Ok(key) ==> key@ == master_secret(seed@),
            r matches Err(e) ==> e == KeyDerivationError::SeedTooShort,
    {
        if seed.len() < MIN_SEED_LEN {
            return Err(KeyDerivationError::SeedTooShort);
        }
        Ok(SecretKey { bytes: bls_master_secret(seed) })
    }

    /// The encoding of the key. The bytes of a key are always accepted as an
    /// encoding.
    pub fn to_bytes(&self) -> (bytes: [u8; 32])
        ensures
            bytes@ == self@,
            secret_key_accepted(bytes@),
    {
        proof {
            use_type_invariant(self);
        }
        self.bytes
    }

    /// The encoding of the key as hexadecimal text.
    pub fn to_hex(&self) -> (text: String)
        ensures
            text@ == hex_text(self@),
    {
        hex_encode(self.bytes.as_slice())
    }

    /// The public key that belongs to this secret key.
    pub fn public_key(&self) -> (public: PublicKey)
        ensures
            public@ == public_of(self@),
    {
        proof {
            use_type_invariant(self);
        }
        PublicKey { bytes: bls_public_of(&self.bytes) }
    }

    /// The hardened child at `index`.
    pub fn derive_hardened(&self, index: u32) -> (child: SecretKey)
        ensures
            child@ == hardened_child(self@, index),
    {
        proof {
            use_type_invariant(self);
        }
        SecretKey { bytes: bls_hardened_child(&self.bytes, index) }
    }

    /// The key reached by one hardened step per segment of `path`.
    pub fn derive_hardened_path(&self, path: &[u32]) -> (derived: SecretKey)
        ensures
            derived@ == hardened_path(self@, path@),
    {
        proof {
            use_type_invariant(self);
        }
        let mut bytes: [u8; 32] = self.bytes;
        let mut i: usize = 0;
        while i < path.len()
            invariant
                0 <= i <= path@.len(),
                secret_key_accepted(bytes@),
                bytes@ == hardened_path(self@, path@.take(i as int)),
            decreases path@.len() - i,
        {
            proof {
                let next = path@.take(i as int + 1);
                assert(next.drop_last() =~= path@.take(i as int));
                assert(next.last() == path@[i as int]);
            }
            bytes = bls_hardened_child(&bytes, path[i]);
            i = i + 1;
        }
        assert(path@.take(i as int) =~= path@);
        SecretKey { bytes }
    }

    /// The hardened wallet intermediate of this master key: the key at the
    /// wallet path.
    pub fn wallet_hardened_intermediate(&self) -> (intermediate: SecretKey)
        ensures
            intermediate@ == hardened_path(self@, wallet_path()),
    {
        proof {
            use_type_invariant(self);
            lemma_hardened_path_of_three(self@, PURPOSE, COIN_TYPE, WALLET_ACCOUNT);
        }
        SecretKey { bytes: bls_wallet_hardened_intermediate(&self.bytes) }
    }

    /// The synthetic secret key: this key with the puzzle-locking transform
    /// applied.
    pub fn derive_synthetic(&self) -> (synthetic: SecretKey)
        ensures
            synthetic@ == synthetic_secret(self@),
    {
        proof {
            use_type_invariant(self);
        }
        SecretKey { bytes: puzzle_synthetic_secret(&self.bytes) }
    }
}

impl PublicKey {
    #[verifier::type_invariant]
    spec fn well_formed(self) -> bool {
        public_key_accepted(self.bytes@)
    }

    /// Reads a public key from its compressed encoding.
    pub fn from_bytes(bytes: &[u8; 48]) -> (r: Result<PublicKey, KeyDerivationError>)
        ensures
            r is Ok <==> public_key_accepted(bytes@),
            r matches Ok(key) ==> key@ == bytes@,
            r matches Err(e) ==> e == KeyDerivationError::InvalidPublicKey,
    {
        if bls_accepts_public(bytes) {
            Ok(PublicKey { bytes: *bytes })
        } else {
            Err(KeyDerivationError::InvalidPublicKey)
        }
    }

    /// The compressed encoding of the key. The bytes of a key are always
    /// accepted as an encoding.
    pub fn to_bytes(&self) -> (bytes: [u8; 48])
        ensures
            bytes@ == self@,
            public_key_accepted(bytes@),
    {
        proof {
            use_type_invariant(self);
        }
        self.bytes
    }

    /// The compressed encoding of the key as hexadecimal text.
    pub fn to_hex(&self) -> (text: String)
        ensures
            text@ == hex_text(self@),
    {
        hex_encode(self.bytes.as_slice())
    }

    /// The short public identifier of the key. It serves display and naming
    /// only and takes no part in any derivation.
    pub fn get_fingerprint(&self) -> (fingerprint: u32)
        ensures
            fingerprint == fingerprint_of(self@),
    {
        proof {
            use_type_invariant(self);
        }
        bls_fingerprint(&self.bytes)
    }

    /// The unhardened child at `index`, computed from public material alone.
    pub fn derive_unhardened(&self, index: u32) -> (child: PublicKey)
        ensures
            child@ == unhardened_child(self@, index),
    {
        proof {
            use_type_invariant(self);
        }
        PublicKey { bytes: bls_unhardened_child(&self.bytes, index) }
    }

    /// The unhardened wallet intermediate of this master public key: the key
    /// at the wallet path, computed from public material alone.
    pub fn wallet_unhardened_intermediate(&self) -> (intermediate: PublicKey)
        ensures
            intermediate@ == unhardened_path(self@, wallet_path()),
    {
        proof {
            use_type_invariant(self);
            lemma_unhardened_path_of_three(self@, PURPOSE, COIN_TYPE, WALLET_ACCOUNT);
        }
        PublicKey { bytes: bls_wallet_unhardened_intermediate(&self.bytes) }
    }

    /// The synthetic public key: this key with the puzzle-locking transform
    /// applied, computed from public material alone.
    pub fn derive_synthetic(&self) -> (synthetic: PublicKey)
        ensures
            synthetic@ == synthetic_public(self@),
    {
        proof {
            use_type_invariant(self);
        }
        PublicKey { bytes: puzzle_synthetic_public(&self.bytes) }
    }
}

} // verus!
