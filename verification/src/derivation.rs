//! The key tree of a wallet: from the mnemonic to the master key, the two
//! wallet intermediates, the farmer and pool keys, and the synthetic key and
//! address of every index.
//!
//! Everything here is a function of its arguments alone: the same mnemonic and
//! index always give the same keys and the same address.

use crate::address::{
    address_prefix, bech32m_encoding, encode_address, standard_puzzle_hash, to_puzzle_hash,
};
use crate::keys::{
    farmer_path, fingerprint_of, hardened_child, hardened_path, master_secret, pool_path,
    public_of, synthetic_public, synthetic_secret, unhardened_child, unhardened_path,
    wallet_path, PublicKey, SecretKey, COIN_TYPE, FARMER_ACCOUNT, POOL_ACCOUNT, PURPOSE,
};
use crate::mnemonic::{mnemonic_seed, Mnemonic};
use vstd::prelude::*;

verus! {

/// The bytes of the master secret key of the mnemonic with the given entropy:
/// the key of the seed that the mnemonic expands to with an empty passphrase.
pub open spec fn master_of(entropy: Seq<u8>) -> Seq<u8> {
    master_secret(mnemonic_seed(entropy, Seq::<char>::empty()))
}

/// Expands a mnemonic to its master secret key.
///
/// The seed of a mnemonic has 64 bytes, which is enough for a key, so this
/// cannot fail.
pub fn derive_master(mnemonic: &Mnemonic) -> (master: SecretKey)
    ensures
        master@ == master_of(mnemonic@),
{
    proof {
        reveal_strlit("");
        assert(""@ =~= Seq::<char>::empty());
    }
    let seed = mnemonic.to_seed("");
    match SecretKey::from_seed(seed.as_slice()) {
        Ok(master) => master,
        Err(_) => vstd::pervasive::unreached(),
    }
}

/// What is derived once from the master key for the two branches of a wallet.
#[derive(Debug, Clone, PartialEq, Eq)]
pub struct Branches {
    /// The root of the hardened branch, derived from the master secret key.
    pub hardened: SecretKey,
    /// The root of the unhardened branch, derived from the master public key.
    pub unhardened: PublicKey,
    /// The master public key.
    pub master_public: PublicKey,
    /// The fingerprint of the master public key.
    pub fingerprint: u32,
}

/// Derives the roots of the two branches, the master public key and its
/// fingerprint.
///
/// The hardened root comes from the secret key. The unhardened root comes from
/// the public key, so that whoever holds only the public key can derive the
/// same unhardened keys.
pub fn derive_branches(master: &SecretKey) -> (branches: Branches)
    ensures
        branches.master_public@ == public_of(master@),
        branches.hardened@ == hardened_path(master@, wallet_path()),
        branches.unhardened@ == unhardened_path(public_of(master@), wallet_path()),
        branches.fingerprint == fingerprint_of(public_of(master@)),
{
    let master_public = master.public_key();
    Branches {
        hardened: master.wallet_hardened_intermediate(),
        unhardened: master_public.wallet_unhardened_intermediate(),
        master_public,
        fingerprint: master_public.get_fingerprint(),
    }
}

/// The keys at the two fixed service paths.
#[derive(Debug, Clone, PartialEq, Eq)]
pub struct ServiceKeys {
    /// The farmer secret key.
    pub farmer_secret: SecretKey,
    /// The farmer public key.
    pub farmer_public: PublicKey,
    /// The pool public key.
    pub pool_public: PublicKey,
}

/// Derives the farmer and pool keys. Their paths are constants: nothing but
/// the master key enters.
pub fn derive_service_keys(master: &SecretKey) -> (keys: ServiceKeys)
    ensures
        keys.farmer_secret@ == hardened_path(master@, farmer_path()),
        keys.farmer_public@ == public_of(hardened_path(master@, farmer_path())),
        keys.pool_public@ == public_of(hardened_path(master@, pool_path())),
{
    let farmer: [u32; 4] = [PURPOSE, COIN_TYPE, FARMER_ACCOUNT, 0];
    let pool: [u32; 4] = [PURPOSE, COIN_TYPE, POOL_ACCOUNT, 0];
    assert(farmer@ =~= farmer_path());
    assert(pool@ =~= pool_path());
    let farmer_secret = master.derive_hardened_path(farmer.as_slice());
    let farmer_public = farmer_secret.public_key();
    let pool_public = master.derive_hardened_path(pool.as_slice()).public_key();
    ServiceKeys { farmer_secret, farmer_public, pool_public }
}

/// The root of one branch of a wallet.
#[derive(Debug, Clone, PartialEq, Eq)]
pub enum IntermediateKey {
    /// The hardened branch: children need the secret key.
    Hardened(SecretKey),
    /// The unhardened branch: children need the public key only.
    Unhardened(PublicKey),
}

/// The key of one index, with the puzzle-locking transform applied.
#[derive(Debug, Clone, Copy, PartialEq, Eq)]
pub struct SyntheticKey {
    /// The synthetic public key.
    pub public_key: PublicKey,
    /// The index that the key was derived at.
    pub index: u32,
    /// Whether the key belongs to the hardened branch.
    pub hardened: bool,
}

/// The bytes of the synthetic public key at an index of a branch.
///
/// On the hardened branch the child secret key is made synthetic and the
/// public key is taken from that. On the unhardened branch the child public
/// key is made synthetic directly.
pub open spec fn synthetic_child(intermediate: IntermediateKey, index: u32) -> Seq<u8> {
    match intermediate {
        IntermediateKey::Hardened(secret) => public_of(
            synthetic_secret(hardened_child(secret@, index)),
        ),
        IntermediateKey::Unhardened(public) => synthetic_public(
            unhardened_child(public@, index),
        ),
    }
}

/// Derives the synthetic key at an index of a branch. On the unhardened branch
/// no secret material is touched.
pub fn derive_child(intermediate: &IntermediateKey, index: u32) -> (child: SyntheticKey)
    ensures
        child.public_key@ == synthetic_child(*intermediate, index),
        child.index == index,
        child.hardened == (intermediate is Hardened),
{
    match intermediate {
        IntermediateKey::Hardened(secret) => SyntheticKey {
            public_key: secret.derive_hardened(index).derive_synthetic().public_key(),
            index,
            hardened: true,
        },
        IntermediateKey::Unhardened(public) => SyntheticKey {
            public_key: public.derive_unhardened(index).derive_synthetic(),
            index,
            hardened: false,
        },
    }
}

/// The address of the synthetic public key with the given bytes.
pub open spec fn key_address(synthetic: Seq<u8>) -> Seq<char> {
    bech32m_encoding(address_prefix(), standard_puzzle_hash(synthetic))
}

/// The address at an index of a branch.
pub open spec fn child_address(intermediate: IntermediateKey, index: u32) -> Seq<char> {
    key_address(synthetic_child(intermediate, index))
}

/// One line of the list of addresses.
#[derive(Debug, Clone, PartialEq, Eq)]
pub struct AddressEntry {
    /// The derivation index.
    pub index: u32,
    /// The address at that index.
    pub address: String,
}

/// Derives the address at an index of a branch: the child key, its puzzle
/// hash, and the encoding of that.
pub fn derive_address(intermediate: &IntermediateKey, index: u32) -> (address: String)
    ensures
        address@ == child_address(*intermediate, index),
{
    let child = derive_child(intermediate, index);
    encode_address(to_puzzle_hash(&child.public_key))
}

/// Derives the addresses at the given indices of a branch, one entry for every
/// index, in the order of the indices.
pub fn derive_addresses(intermediate: &IntermediateKey, indices: &Vec<u32>) -> (entries: Vec<
    AddressEntry,
>)
    ensures
        entries@.len() == indices@.len(),
        forall|i: int|
            0 <= i < indices@.len() ==> (#[trigger] entries@[i]).index == indices@[i]
                && entries@[i].address@ == child_address(*intermediate, indices@[i]),
{
    let mut entries: Vec<AddressEntry> = Vec::new();
    let mut i: usize = 0;
    while i < indices.len()
        invariant
            0 <= i <= indices@.len(),
            entries@.len() == i,
            forall|k: int|
                0 <= k < i ==> (#[trigger] entries@[k]).index == indices@[k]
                    && entries@[k].address@ == child_address(*intermediate, indices@[k]),
        decreases indices@.len() - i,
    {
        let index = indices[i];
        entries.push(AddressEntry { index, address: derive_address(intermediate, index) });
        i = i + 1;
    }
    entries
}

} // verus!
