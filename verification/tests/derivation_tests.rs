use xch_keygen::address::{decode_address, to_puzzle_hash};
use xch_keygen::derivation::{
    derive_address, derive_addresses, derive_branches, derive_child, derive_master,
    derive_service_keys, IntermediateKey,
};
use xch_keygen::keys::SecretKey;
use xch_keygen::mnemonic::Mnemonic;

fn zero_mnemonic() -> Mnemonic {
    Mnemonic::from_entropy(&[0u8; 16]).unwrap()
}

#[test]
fn master_key_of_a_known_mnemonic() {
    let master = derive_master(&zero_mnemonic());
    assert_eq!(
        master.to_hex(),
        "11da8b4a2874a49dc42984b6aa127b68ef73adddc333319c36fd0446705204a9"
    );
    assert_eq!(master, SecretKey::from_seed(&zero_mnemonic().to_seed("")).unwrap());
}

#[test]
fn branches_of_a_known_mnemonic() {
    let master = derive_master(&zero_mnemonic());
    let branches = derive_branches(&master);
    assert_eq!(
        branches.master_public.to_hex(),
        "82ae65efe846b15a92c51b7ad6c32589fd79d38263d3cbefbeeba08be8e90d8bc335a1e2fcc66a10b8c817c06232285a"
    );
    assert_eq!(branches.fingerprint, 3781984839);
    assert_eq!(
        branches.hardened.to_hex(),
        "6ebea0ada4f832e3dfea906a916b0078bf97a515fb0dc1c5923fd16c95171c98"
    );
    assert_eq!(
        branches.unhardened.to_hex(),
        "a417be8b3382bfc69e3e6f801f96263290d883a6c22ffdfd00434e116f24679bf15c8e0ea9aa5db11ac0457a8912bf79"
    );
    assert_eq!(branches.master_public, master.public_key());
    assert_eq!(branches.hardened, master.derive_hardened_path(&[12381, 8444, 2]));
}

#[test]
fn unhardened_branch_needs_the_public_key_only() {
    let master = derive_master(&zero_mnemonic());
    let branches = derive_branches(&master);
    let watch_only = master.public_key().wallet_unhardened_intermediate();
    assert_eq!(branches.unhardened, watch_only);
    let from_public = derive_address(&IntermediateKey::Unhardened(watch_only), 4);
    let from_secret = derive_address(&IntermediateKey::Unhardened(branches.unhardened), 4);
    assert_eq!(from_public, from_secret);
}

#[test]
fn service_keys_of_a_known_mnemonic() {
    let master = derive_master(&zero_mnemonic());
    let keys = derive_service_keys(&master);
    assert_eq!(
        keys.farmer_secret.to_hex(),
        "0513b3945dc02ff4b9dd50037b756ec40bed9580bdd478292936da02be64b0a2"
    );
    assert_eq!(
        keys.farmer_public.to_hex(),
        "a0b37f085a99bbc97484a9fc4239110b67a698ab8115c268ff51f14814d517b28cf5e0392ff2b6ed6d9b9592d11d15b5"
    );
    assert_eq!(
        keys.pool_public.to_hex(),
        "89d8893e124168666352a247aa0af912a206356305654e40726c03849fe04b682ff54186904c6993914f9f424cf9868f"
    );
}

#[test]
fn service_keys_are_at_their_fixed_paths() {
    let master = derive_master(&zero_mnemonic());
    let keys = derive_service_keys(&master);
    let farmer = master
        .derive_hardened(12381)
        .derive_hardened(8444)
        .derive_hardened(0)
        .derive_hardened(0);
    let pool = master
        .derive_hardened(12381)
        .derive_hardened(8444)
        .derive_hardened(1)
        .derive_hardened(0);
    assert_eq!(keys.farmer_secret, farmer);
    assert_eq!(keys.farmer_public, farmer.public_key());
    assert_eq!(keys.pool_public, pool.public_key());
    assert_ne!(keys.farmer_public, keys.pool_public);
}

#[test]
fn addresses_of_a_known_mnemonic() {
    let branches = derive_branches(&derive_master(&zero_mnemonic()));
    let hardened = IntermediateKey::Hardened(branches.hardened.clone());
    let unhardened = IntermediateKey::Unhardened(branches.unhardened);
    assert_eq!(
        derive_address(&hardened, 0),
        "xch17m20cjztjwevl3rtql5j02rc0mgvmtup24lpq8esctctkaj3g54szqxuju"
    );
    assert_eq!(
        derive_address(&hardened, 1),
        "xch162z3vq0ervc48mdnxxgg6dtcjja7ckq9k999k964uq7xv08fqw2qyalmwh"
    );
    assert_eq!(
        derive_address(&unhardened, 0),
        "xch10y5nzscm52tkudhr40qtxhypr9y9x670wlee4rveas4pttcwsj7q7psn9w"
    );
    assert_eq!(
        derive_address(&unhardened, 1),
        "xch15tpk9qnr9tzvrmrpyh0v5awfj2xx2dgam2eqwe26ghp6fkfpzaxq5rcrjq"
    );
}

#[test]
fn same_mnemonic_and_index_give_the_same_address() {
    for index in [0u32, 1, 17, u32::MAX] {
        let first = derive_branches(&derive_master(&zero_mnemonic()));
        let second = derive_branches(&derive_master(&zero_mnemonic()));
        let a = IntermediateKey::Hardened(first.hardened);
        let b = IntermediateKey::Hardened(second.hardened);
        assert_eq!(derive_child(&a, index), derive_child(&b, index));
        assert_eq!(
            to_puzzle_hash(&derive_child(&a, index).public_key),
            to_puzzle_hash(&derive_child(&b, index).public_key)
        );
        assert_eq!(derive_address(&a, index), derive_address(&b, index));
        let a = IntermediateKey::Unhardened(first.unhardened);
        let b = IntermediateKey::Unhardened(second.unhardened);
        assert_eq!(derive_address(&a, index), derive_address(&b, index));
    }
}

#[test]
fn hardened_and_unhardened_addresses_differ() {
    for fill in [0u8, 1, 0x7f, 0xff] {
        let mnemonic = Mnemonic::from_entropy(&[fill; 32]).unwrap();
        let branches = derive_branches(&derive_master(&mnemonic));
        let hardened = IntermediateKey::Hardened(branches.hardened.clone());
        let unhardened = IntermediateKey::Unhardened(branches.unhardened);
        for index in 0..4u32 {
            assert_ne!(derive_address(&hardened, index), derive_address(&unhardened, index));
            assert_ne!(
                derive_child(&hardened, index).public_key,
                derive_child(&unhardened, index).public_key
            );
        }
    }
}

#[test]
fn child_records_its_index_and_branch() {
    let branches = derive_branches(&derive_master(&zero_mnemonic()));
    let child = derive_child(&IntermediateKey::Hardened(branches.hardened.clone()), 7);
    assert_eq!(child.index, 7);
    assert!(child.hardened);
    assert_eq!(
        child.public_key,
        branches.hardened.derive_hardened(7).derive_synthetic().public_key()
    );
    let child = derive_child(&IntermediateKey::Unhardened(branches.unhardened), 7);
    assert_eq!(child.index, 7);
    assert!(!child.hardened);
    assert_eq!(child.public_key, branches.unhardened.derive_unhardened(7).derive_synthetic());
}

#[test]
fn addresses_come_in_the_order_of_the_indices() {
    let branches = derive_branches(&derive_master(&zero_mnemonic()));
    let unhardened = IntermediateKey::Unhardened(branches.unhardened);
    let indices = vec![5, 7, 9];
    let entries = derive_addresses(&unhardened, &indices);
    assert_eq!(entries.len(), 3);
    for (entry, index) in entries.iter().zip(indices.iter()) {
        assert_eq!(entry.index, *index);
        assert_eq!(entry.address, derive_address(&unhardened, *index));
        let hash = to_puzzle_hash(&derive_child(&unhardened, *index).public_key);
        assert_eq!(decode_address(&entry.address), Ok(hash));
    }
    assert!(derive_addresses(&unhardened, &Vec::new()).is_empty());
}
