//! One run of the engine: a mnemonic is chosen, its key tree is derived, the
//! indices are enumerated and the addresses of both branches are computed.
//!
//! A run is driven by one `Config`. Whatever concerns the enumeration (offset,
//! count, skip, height, policy) reaches the indices and their addresses only:
//! the keys of the wallet depend on the mnemonic alone.

use crate::derivation::{
    child_address, derive_addresses, derive_branches, derive_master, derive_service_keys,
    master_of, AddressEntry, IntermediateKey,
};
use crate::enumerate::{
    effective_height, enumerate, sequential_end, sequential_index, strictly_increasing,
    EnumerateError,
};
use crate::keys::{
    farmer_path, fingerprint_of, hardened_path, pool_path, public_of, unhardened_path,
    wallet_path, PublicKey, SecretKey,
};
use crate::label::{label_text, wallet_label};
use crate::mnemonic::{
    generate_mnemonic, generated_len, lowercase, phrase_entropy, select_mnemonic, takes_up,
    word_count, Mnemonic, MnemonicError,
};
use rand_chacha::ChaCha20Rng;
use vstd::prelude::*;

verus! {

/// What one run is asked to do.
#[derive(Debug, Clone, PartialEq, Eq)]
pub struct Config {
    /// The number of words of a generated mnemonic: 12, or anything else for 24.
    pub words: u8,
    /// The number of addresses.
    pub count: u32,
    /// The index from which to begin.
    pub offset: u32,
    /// The number of indices to leave out between two addresses. Sequential
    /// policy only.
    pub skip: usize,
    /// Whether the indices are sampled at random.
    pub random: bool,
    /// The upper bound of the indices to sample from. Random policy only.
    pub height: Option<u32>,
    /// Whether the wallet gets a label.
    pub naming: bool,
    /// Whether an export hands over the phrase instead of the public key.
    pub export_hot: bool,
    /// The names of the backends to export to.
    pub exports: Vec<String>,
    /// Whether nothing is to be shown.
    pub quiet: bool,
}

impl Default for Config {
    /// Twenty-four words and the first ten addresses, in sequence, without
    /// label or export.
    fn default() -> (config: Config)
        ensures
            config.words == 24,
            config.count == 10,
            config.offset == 0,
            config.skip == 0,
            !config.random,
            config.height is None,
            !config.naming,
            !config.export_hot,
            config.exports@.len() == 0,
            !config.quiet,
    {
        Config {
            words: 24,
            count: 10,
            offset: 0,
            skip: 0,
            random: false,
            height: None,
            naming: false,
            export_hot: false,
            exports: Vec::new(),
            quiet: false,
        }
    }
}

/// The height that the random policy is given: the configured one, or none,
/// which the policy raises to `offset + count`.
pub open spec fn configured_height(config: Config) -> u32 {
    match config.height {
        Some(height) => height,
        None => 0,
    }
}

/// The keys of a wallet and its label.
#[derive(Debug, Clone, PartialEq, Eq)]
pub struct Wallet {
    /// The mnemonic that everything else is derived from.
    pub mnemonic: Mnemonic,
    /// The master secret key.
    pub master_secret: SecretKey,
    /// The master public key.
    pub master_public: PublicKey,
    /// The root of the hardened branch.
    pub hardened: SecretKey,
    /// The root of the unhardened branch: the key that a watch-only wallet
    /// needs.
    pub unhardened: PublicKey,
    /// The fingerprint of the master public key.
    pub fingerprint: u32,
    /// The farmer secret key.
    pub farmer_secret: SecretKey,
    /// The farmer public key.
    pub farmer_public: PublicKey,
    /// The pool public key.
    pub pool_public: PublicKey,
    /// The label; empty where naming is disabled.
    pub label: String,
}

/// Whether a wallet is the one of its mnemonic: every key is what the
/// derivation gives for the mnemonic, and the label is the one of the
/// fingerprint, or empty.
pub open spec fn is_wallet_of_mnemonic(wallet: Wallet, naming: bool) -> bool {
    let master = master_of(wallet.mnemonic@);
    &&& wallet.master_secret@ == master
    &&& wallet.master_public@ == public_of(master)
    &&& wallet.hardened@ == hardened_path(master, wallet_path())
    &&& wallet.unhardened@ == unhardened_path(public_of(master), wallet_path())
    &&& wallet.fingerprint == fingerprint_of(public_of(master))
    &&& wallet.farmer_secret@ == hardened_path(master, farmer_path())
    &&& wallet.farmer_public@ == public_of(hardened_path(master, farmer_path()))
    &&& wallet.pool_public@ == public_of(hardened_path(master, pool_path()))
    &&& wallet.label@ == if naming {
        label_text(wallet.fingerprint)
    } else {
        Seq::<char>::empty()
    }
}

/// Derives the wallet of a mnemonic.
pub fn derive_wallet(mnemonic: Mnemonic, naming: bool) -> (wallet: Wallet)
    ensures
        wallet.mnemonic@ == mnemonic@,
        is_wallet_of_mnemonic(wallet, naming),
{
    let master_secret = derive_master(&mnemonic);
    let branches = derive_branches(&master_secret);
    let service = derive_service_keys(&master_secret);
    let label = wallet_label(branches.fingerprint, naming);
    Wallet {
        mnemonic,
        master_secret,
        master_public: branches.master_public,
        hardened: branches.hardened,
        unhardened: branches.unhardened,
        fingerprint: branches.fingerprint,
        farmer_secret: service.farmer_secret,
        farmer_public: service.farmer_public,
        pool_public: service.pool_public,
        label,
    }
}

/// Why a run produced no wallet.
#[derive(Debug, Clone, Copy, PartialEq, Eq)]
pub enum RunError {
    /// The supplied phrase cannot be read.
    Mnemonic(MnemonicError),
    /// The indices cannot be enumerated.
    Enumerate(EnumerateError),
}

/// What a run derives.
#[derive(Debug, Clone, PartialEq, Eq)]
pub struct Derivation {
    /// The wallet.
    pub wallet: Wallet,
    /// The indices, strictly increasing.
    pub indices: Vec<u32>,
    /// The addresses of the hardened branch, one for every index.
    pub hardened_addresses: Vec<AddressEntry>,
    /// The addresses of the unhardened branch, one for every index.
    pub unhardened_addresses: Vec<AddressEntry>,
}

/// Whether a phrase was supplied that has to be read and cannot be: text of
/// twelve or twenty-four words that is no valid phrase.
pub open spec fn phrase_refused(input: Seq<char>) -> bool {
    &&& input.len() > 0
    &&& takes_up(word_count(lowercase(input)))
    &&& phrase_entropy(lowercase(input)) is None
}

/// Whether a phrase was supplied that is taken up and can be read.
pub open spec fn phrase_accepted(input: Seq<char>) -> bool {
    &&& input.len() > 0
    &&& takes_up(word_count(lowercase(input)))
    &&& phrase_entropy(lowercase(input)) is Some
}

/// Whether the range that the configuration asks for ends beyond the largest
/// index.
pub open spec fn range_overflows(config: Config) -> bool {
    if config.random {
        config.offset + config.count > u32::MAX
    } else {
        sequential_end(config.offset, config.count, config.skip) > u32::MAX
    }
}

/// Whether the indices are what the configuration asks for: `count` strictly
/// increasing indices, exactly those of the sequential policy, or within the
/// bounds of the random one.
pub open spec fn indices_match(indices: Seq<u32>, config: Config) -> bool {
    &&& indices.len() == config.count
    &&& strictly_increasing(indices)
    &&& !config.random ==> forall|i: int|
        0 <= i < config.count ==> #[trigger] indices[i] == sequential_index(
            config.offset,
            config.skip,
            i,
        )
    &&& config.random ==> forall|i: int|
        0 <= i < indices.len() ==> config.offset <= #[trigger] indices[i] < effective_height(
            config.offset,
            config.count,
            configured_height(config),
        )
}

/// Whether the entries are the addresses of a branch at the given indices, in
/// their order.
pub open spec fn addresses_match(
    entries: Seq<AddressEntry>,
    intermediate: IntermediateKey,
    indices: Seq<u32>,
) -> bool {
    &&& entries.len() == indices.len()
    &&& forall|i: int|
        0 <= i < indices.len() ==> (#[trigger] entries[i]).index == indices[i]
            && entries[i].address@ == child_address(intermediate, indices[i])
}

/// Whether a derivation is what a run with the given configuration produces
/// for its mnemonic.
pub open spec fn is_run_of(derived: Derivation, config: Config) -> bool {
    &&& is_wallet_of_mnemonic(derived.wallet, config.naming)
    &&& indices_match(derived.indices@, config)
    &&& addresses_match(
        derived.hardened_addresses@,
        IntermediateKey::Hardened(derived.wallet.hardened),
        derived.indices@,
    )
    &&& addresses_match(
        derived.unhardened_addresses@,
        IntermediateKey::Unhardened(derived.wallet.unhardened),
        derived.indices@,
    )
}

/// Runs the engine once: chooses the mnemonic, derives the wallet, enumerates
/// the indices and derives the addresses of both branches.
///
/// A mnemonic is generated first in any case. A supplied phrase of twelve or
/// twenty-four words takes its place; one that cannot be read ends the run.
/// So does a range of indices that ends beyond `u32::MAX`. Nothing is derived
/// in part: either the whole derivation comes back or an error.
pub fn derive_run(config: &Config, input: &str, rng: &mut ChaCha20Rng) -> (r: Result<
    Derivation,
    RunError,
>)
    ensures
        r matches Err(RunError::Mnemonic(e)) ==> phrase_refused(input@) && e
            == MnemonicError::InvalidPhrase,
        r matches Err(RunError::Enumerate(e)) ==> !phrase_refused(input@) && range_overflows(
            *config,
        ) && e == EnumerateError::RangeOverflow,
        r is Ok <==> !phrase_refused(input@) && !range_overflows(*config),
        r matches Ok(derived) ==> is_run_of(derived, *config),
        r matches Ok(derived) ==> if phrase_accepted(input@) {
            Some(derived.wallet.mnemonic@) == phrase_entropy(lowercase(input@))
        } else {
            derived.wallet.mnemonic@.len() == generated_len(config.words)
        },
{
    let generated = generate_mnemonic(config.words, rng);
    let mnemonic = match select_mnemonic(input, generated) {
        Ok(mnemonic) => mnemonic,
        Err(e) => {
            return Err(RunError::Mnemonic(e));
        },
    };
    let height: u32 = match config.height {
        Some(height) => height,
        None => 0,
    };
    let indices = match enumerate(
        config.offset,
        config.count,
        config.skip,
        config.random,
        height,
        rng,
    ) {
        Ok(indices) => indices,
        Err(e) => {
            return Err(RunError::Enumerate(e));
        },
    };
    let wallet = derive_wallet(mnemonic, config.naming);
    let hardened = IntermediateKey::Hardened(wallet.hardened.clone());
    let unhardened = IntermediateKey::Unhardened(wallet.unhardened);
    let hardened_addresses = derive_addresses(&hardened, &indices);
    let unhardened_addresses = derive_addresses(&unhardened, &indices);
    Ok(Derivation { wallet, indices, hardened_addresses, unhardened_addresses })
}

/// The farmer and pool keys of a run depend on the mnemonic alone: two runs on
/// the same mnemonic give the same service keys, whatever offset, count, skip,
/// height and policy each was configured with.
pub proof fn lemma_service_keys_ignore_enumeration(
    first: Derivation,
    first_config: Config,
    second: Derivation,
    second_config: Config,
)
    requires
        is_run_of(first, first_config),
        is_run_of(second, second_config),
        first.wallet.mnemonic@ == second.wallet.mnemonic@,
    ensures
        first.wallet.farmer_secret@ == second.wallet.farmer_secret@,
        first.wallet.farmer_public@ == second.wallet.farmer_public@,
        first.wallet.pool_public@ == second.wallet.pool_public@,
{
}

/// Addresses are determined by the mnemonic and the index: where two runs on
/// the same mnemonic both reach an index, they give it the same address, on
/// the hardened and on the unhardened branch.
pub proof fn lemma_addresses_are_determined(
    first: Derivation,
    first_config: Config,
    i: int,
    second: Derivation,
    second_config: Config,
    j: int,
)
    requires
        is_run_of(first, first_config),
        is_run_of(second, second_config),
        first.wallet.mnemonic@ == second.wallet.mnemonic@,
        0 <= i < first.indices@.len(),
        0 <= j < second.indices@.len(),
        first.indices@[i] == second.indices@[j],
    ensures
        first.hardened_addresses@[i].address@ == second.hardened_addresses@[j].address@,
        first.unhardened_addresses@[i].address@ == second.unhardened_addresses@[j].address@,
{
}

/// The indices of a run are strictly increasing and so hold no index twice,
/// under either policy.
pub proof fn lemma_indices_are_distinct(derived: Derivation, config: Config, i: int, j: int)
    requires
        is_run_of(derived, config),
        0 <= i < derived.indices@.len(),
        0 <= j < derived.indices@.len(),
        i != j,
    ensures
        derived.indices@[i] != derived.indices@[j],
{
    if i < j {
        assert(derived.indices@[i] < derived.indices@[j]);
    } else {
        assert(derived.indices@[j] < derived.indices@[i]);
    }
}

} // verus!
