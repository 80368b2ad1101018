use rand::SeedableRng;
use rand_chacha::ChaCha20Rng;
use xch_keygen::derivation::{derive_address, IntermediateKey};
use xch_keygen::enumerate::EnumerateError;
use xch_keygen::mnemonic::MnemonicError;
use xch_keygen::wallet::{derive_run, derive_wallet, Config, RunError};
use xch_keygen::mnemonic::Mnemonic;

const TWELVE_ZERO: &str =
    "abandon abandon abandon abandon abandon abandon abandon abandon abandon abandon abandon about";

#[test]
fn default_configuration() {
    let config = Config::default();
    assert_eq!(
        config,
        Config {
            words: 24,
            count: 10,
            offset: 0,
            skip: 0,
            random: false,
            height: None,
            naming: false,
            export_hot: false,
            exports: Vec::new(),
            quiet: false,
        }
    );
}

#[test]
fn wallet_of_a_known_mnemonic() {
    let wallet = derive_wallet(Mnemonic::from_entropy(&[0u8; 16]).unwrap(), true);
    assert_eq!(wallet.mnemonic.phrase(), TWELVE_ZERO);
    assert_eq!(
        wallet.master_secret.to_hex(),
        "11da8b4a2874a49dc42984b6aa127b68ef73adddc333319c36fd0446705204a9"
    );
    assert_eq!(wallet.master_public, wallet.master_secret.public_key());
    assert_eq!(wallet.fingerprint, 3781984839);
    assert_eq!(wallet.label, "idle-rare-employ");
    assert_eq!(
        wallet.unhardened.to_hex(),
        "a417be8b3382bfc69e3e6f801f96263290d883a6c22ffdfd00434e116f24679bf15c8e0ea9aa5db11ac0457a8912bf79"
    );
    assert_eq!(wallet.farmer_public, wallet.farmer_secret.public_key());
    let unnamed = derive_wallet(Mnemonic::from_entropy(&[0u8; 16]).unwrap(), false);
    assert_eq!(unnamed.label, "");
    assert_eq!(unnamed.master_secret, wallet.master_secret);
}

#[test]
fn run_with_a_supplied_phrase() {
    let mut rng = ChaCha20Rng::seed_from_u64(1);
    let config = Config { count: 2, ..Config::default() };
    let derived = derive_run(&config, TWELVE_ZERO, &mut rng).unwrap();
    assert_eq!(derived.wallet.mnemonic.phrase(), TWELVE_ZERO);
    assert_eq!(derived.indices, vec![0, 1]);
    let hardened: Vec<&str> =
        derived.hardened_addresses.iter().map(|entry| entry.address.as_str()).collect();
    assert_eq!(
        hardened,
        vec![
            "xch17m20cjztjwevl3rtql5j02rc0mgvmtup24lpq8esctctkaj3g54szqxuju",
            "xch162z3vq0ervc48mdnxxgg6dtcjja7ckq9k999k964uq7xv08fqw2qyalmwh"
        ]
    );
    let unhardened: Vec<&str> =
        derived.unhardened_addresses.iter().map(|entry| entry.address.as_str()).collect();
    assert_eq!(
        unhardened,
        vec![
            "xch10y5nzscm52tkudhr40qtxhypr9y9x670wlee4rveas4pttcwsj7q7psn9w",
            "xch15tpk9qnr9tzvrmrpyh0v5awfj2xx2dgam2eqwe26ghp6fkfpzaxq5rcrjq"
        ]
    );
}

#[test]
fn run_without_input_generates_a_mnemonic() {
    let mut rng = ChaCha20Rng::seed_from_u64(1);
    let derived = derive_run(&Config::default(), "", &mut rng).unwrap();
    assert_eq!(derived.wallet.mnemonic.word_count(), 24);
    assert_eq!(derived.indices, vec![0, 1, 2, 3, 4, 5, 6, 7, 8, 9]);
    assert_eq!(derived.hardened_addresses.len(), 10);
    assert_eq!(derived.unhardened_addresses.len(), 10);
    assert_eq!(derived.wallet.label, "");
    let mut rng = ChaCha20Rng::seed_from_u64(1);
    let twelve = Config { words: 12, ..Config::default() };
    assert_eq!(derive_run(&twelve, "", &mut rng).unwrap().wallet.mnemonic.word_count(), 12);
}

#[test]
fn run_is_reproducible_with_a_fixed_seed() {
    let config = Config { random: true, height: Some(500), count: 5, ..Config::default() };
    let mut first = ChaCha20Rng::seed_from_u64(77);
    let mut second = ChaCha20Rng::seed_from_u64(77);
    assert_eq!(derive_run(&config, "", &mut first), derive_run(&config, "", &mut second));
}

#[test]
fn addresses_follow_the_indices() {
    let config =
        Config { offset: 5, count: 3, skip: 1, naming: true, ..Config::default() };
    let mut rng = ChaCha20Rng::seed_from_u64(2);
    let derived = derive_run(&config, TWELVE_ZERO, &mut rng).unwrap();
    assert_eq!(derived.indices, vec![5, 7, 9]);
    assert_eq!(derived.wallet.label, "idle-rare-employ");
    let hardened = IntermediateKey::Hardened(derived.wallet.hardened.clone());
    let unhardened = IntermediateKey::Unhardened(derived.wallet.unhardened);
    for (position, index) in derived.indices.iter().enumerate() {
        assert_eq!(derived.hardened_addresses[position].index, *index);
        assert_eq!(derived.unhardened_addresses[position].index, *index);
        assert_eq!(
            derived.hardened_addresses[position].address,
            derive_address(&hardened, *index)
        );
        assert_eq!(
            derived.unhardened_addresses[position].address,
            derive_address(&unhardened, *index)
        );
    }
}

#[test]
fn service_keys_do_not_depend_on_the_enumeration() {
    let configs = [
        Config::default(),
        Config { offset: 100, count: 1, ..Config::default() },
        Config { skip: 9, count: 3, ..Config::default() },
        Config { random: true, height: Some(50), count: 4, ..Config::default() },
        Config { random: true, height: None, offset: 7, count: 2, ..Config::default() },
        Config { count: 0, naming: true, ..Config::default() },
    ];
    let mut rng = ChaCha20Rng::seed_from_u64(3);
    let reference = derive_run(&configs[0], TWELVE_ZERO, &mut rng).unwrap().wallet;
    assert_eq!(
        reference.farmer_public.to_hex(),
        "a0b37f085a99bbc97484a9fc4239110b67a698ab8115c268ff51f14814d517b28cf5e0392ff2b6ed6d9b9592d11d15b5"
    );
    for config in configs.iter() {
        let wallet = derive_run(config, TWELVE_ZERO, &mut rng).unwrap().wallet;
        assert_eq!(wallet.farmer_secret, reference.farmer_secret);
        assert_eq!(wallet.farmer_public, reference.farmer_public);
        assert_eq!(wallet.pool_public, reference.pool_public);
        assert_eq!(wallet.master_secret, reference.master_secret);
    }
}

#[test]
fn random_run_samples_within_the_height() {
    let config =
        Config { random: true, height: Some(10), count: 3, skip: 5, ..Config::default() };
    for seed in 0..10u64 {
        let mut rng = ChaCha20Rng::seed_from_u64(seed);
        let derived = derive_run(&config, TWELVE_ZERO, &mut rng).unwrap();
        assert_eq!(derived.indices.len(), 3);
        assert!(derived.indices.windows(2).all(|pair| pair[0] < pair[1]));
        assert!(derived.indices.iter().all(|index| *index < 10));
        assert_eq!(derived.unhardened_addresses.len(), 3);
    }
}

#[test]
fn unreadable_phrase_ends_the_run() {
    let mut rng = ChaCha20Rng::seed_from_u64(4);
    let twelve_bad = "abandon abandon abandon abandon abandon abandon abandon abandon abandon abandon abandon abandon";
    assert_eq!(
        derive_run(&Config::default(), twelve_bad, &mut rng),
        Err(RunError::Mnemonic(MnemonicError::InvalidPhrase))
    );
}

#[test]
fn overflowing_range_ends_the_run() {
    let mut rng = ChaCha20Rng::seed_from_u64(4);
    let config = Config { offset: u32::MAX, count: 1, ..Config::default() };
    assert_eq!(
        derive_run(&config, TWELVE_ZERO, &mut rng),
        Err(RunError::Enumerate(EnumerateError::RangeOverflow))
    );
    let config = Config { offset: u32::MAX - 3, count: 4, random: true, ..Config::default() };
    assert_eq!(
        derive_run(&config, TWELVE_ZERO, &mut rng),
        Err(RunError::Enumerate(EnumerateError::RangeOverflow))
    );
}

#[test]
fn unreadable_phrase_is_reported_before_an_overflowing_range() {
    let mut rng = ChaCha20Rng::seed_from_u64(4);
    let config = Config { offset: u32::MAX, count: 1, ..Config::default() };
    let bad = "a b c d e f g h i j k l";
    assert_eq!(
        derive_run(&config, bad, &mut rng),
        Err(RunError::Mnemonic(MnemonicError::InvalidPhrase))
    );
}

#[test]
fn text_of_another_length_is_not_taken_up() {
    let mut rng = ChaCha20Rng::seed_from_u64(9);
    let derived = derive_run(&Config::default(), "just three words", &mut rng).unwrap();
    assert_eq!(derived.wallet.mnemonic.word_count(), 24);
    assert_ne!(derived.wallet.mnemonic.phrase(), "just three words");
}
