use bls_wallet::{
    check_wallet_name, create_random_wallet, create_wallet_from_mnemonic, decrypt,
    derive_child_key, derive_master_key, encrypt, get_address, get_entropy, get_mnemonic,
    mnemonic_to_seed, restore_wallet, stretch, to_public_key, wallet_file_path, Error,
};

const PHRASE: &str = "abandon abandon abandon abandon abandon abandon abandon abandon abandon \
     abandon abandon abandon abandon abandon abandon abandon abandon abandon abandon abandon \
     abandon abandon abandon art";

#[test]
fn cipher_round_trip() {
    let entropy: Vec<u8> = (0u8..32u8).collect();
    let ciphertext = encrypt(&entropy, "pw").unwrap();
    assert_eq!(ciphertext.len(), entropy.len() + 16);
    assert_eq!(decrypt(&ciphertext, "pw").unwrap(), entropy);
}

#[test]
fn wrong_password_fails_decryption() {
    let entropy: Vec<u8> = (0u8..32u8).collect();
    let ciphertext = encrypt(&entropy, "pw1").unwrap();
    assert_eq!(
        decrypt(&ciphertext, "pw2").unwrap_err(),
        Error::DecryptionFailed
    );
}

#[test]
fn stretch_is_deterministic() {
    let (key_a, phc_a) = stretch("pw").unwrap();
    let (key_b, phc_b) = stretch("pw").unwrap();
    assert_eq!(key_a, key_b);
    assert_eq!(phc_a, phc_b);
    assert_eq!(key_a.len(), 32);
    assert!(phc_a.starts_with("$argon2id$"));
}

#[test]
fn key_derivation_is_deterministic() {
    let seed = mnemonic_to_seed(PHRASE, "").unwrap();
    assert_eq!(seed.len(), 64);
    let master_a = derive_master_key(&seed).unwrap();
    let master_b = derive_master_key(&seed).unwrap();
    assert_eq!(master_a, master_b);
    let child_a = derive_child_key(&master_a, 7).unwrap();
    let child_b = derive_child_key(&master_b, 7).unwrap();
    assert_eq!(child_a, child_b);
}

#[test]
fn distinct_indexes_give_distinct_keys() {
    let seed = mnemonic_to_seed(PHRASE, "").unwrap();
    let master = derive_master_key(&seed).unwrap();
    let child_0 = derive_child_key(&master, 0).unwrap();
    let child_1 = derive_child_key(&master, 1).unwrap();
    assert_ne!(child_0, child_1);
}

#[test]
fn short_seed_fails_key_derivation() {
    let seed = vec![0u8; 31];
    assert_eq!(
        derive_master_key(&seed).unwrap_err(),
        Error::KeyDerivationFailed
    );
}

#[test]
fn created_wallet_addresses_match_derivation() {
    let wallet = create_wallet_from_mnemonic(PHRASE, "alice", "pw1").unwrap();
    assert_eq!(wallet.addresses.len(), 20);
    let seed = mnemonic_to_seed(PHRASE, "").unwrap();
    let master = derive_master_key(&seed).unwrap();
    for (i, address) in wallet.addresses.iter().enumerate() {
        let child = derive_child_key(&master, i as u32).unwrap();
        let public = to_public_key(&child).unwrap();
        assert_eq!(address, &public);
        assert_eq!(address.len(), 48);
    }
}

#[test]
fn created_wallet_record_fields() {
    let wallet = create_wallet_from_mnemonic(PHRASE, "alice", "pw1").unwrap();
    assert_eq!(wallet.name, "alice");
    assert!(wallet.checksum.is_empty());
    assert!(wallet.decryptor_hash.starts_with("$argon2id$"));
}

#[test]
fn tampered_ciphertext_fails_decryption() {
    let mut wallet = create_wallet_from_mnemonic(PHRASE, "alice", "pw1").unwrap();
    for bit in 0..8 {
        let original = wallet.encrypted_entropy[0];
        wallet.encrypted_entropy[0] = original ^ (1 << bit);
        assert_eq!(
            get_mnemonic(&wallet, "pw1").unwrap_err(),
            Error::DecryptionFailed
        );
        wallet.encrypted_entropy[0] = original;
    }
    let last = wallet.encrypted_entropy.len() - 1;
    wallet.encrypted_entropy[last] ^= 0x80;
    assert_eq!(
        get_mnemonic(&wallet, "pw1").unwrap_err(),
        Error::DecryptionFailed
    );
}

#[test]
fn created_and_restored_wallets_share_addresses() {
    let (alice, phrase) = create_random_wallet("alice", "pw1").unwrap();
    assert_eq!(phrase.split_whitespace().count(), 24);
    let bob = restore_wallet("bob", "pw2", &phrase).unwrap();
    assert_eq!(get_address(&alice), get_address(&bob));
    assert_eq!(alice.addresses, bob.addresses);
}

#[test]
fn get_mnemonic_returns_creation_phrase() {
    let (alice, phrase) = create_random_wallet("alice", "pw1").unwrap();
    assert_eq!(get_mnemonic(&alice, "pw1").unwrap(), phrase);
    assert!(get_mnemonic(&alice, "wrong").is_err());
}

#[test]
fn get_entropy_round_trips_through_record() {
    let entropy: Vec<u8> = (100u8..132u8).collect();
    let phrase = bls_wallet::entropy_to_mnemonic(&entropy).unwrap();
    let wallet = create_wallet_from_mnemonic(&phrase, "alice", "pw1").unwrap();
    assert_eq!(get_entropy(&wallet, "pw1").unwrap(), entropy);
}

#[test]
fn restore_with_bad_phrase_fails() {
    assert_eq!(
        restore_wallet("bob", "pw", "not a phrase").unwrap_err(),
        Error::MnemonicInvalid
    );
}

#[test]
fn bad_name_is_rejected_at_creation() {
    assert_eq!(
        create_wallet_from_mnemonic(PHRASE, "../evil", "pw").unwrap_err(),
        Error::InvalidName
    );
    assert_eq!(
        create_random_wallet("a/b", "pw").unwrap_err(),
        Error::InvalidName
    );
}

#[test]
fn wallet_file_path_is_name_under_storage_dir() {
    assert_eq!(wallet_file_path("alice").unwrap(), "wallets/alice");
    assert_eq!(
        wallet_file_path("../evil").unwrap_err(),
        Error::InvalidName
    );
    assert_eq!(wallet_file_path("").unwrap_err(), Error::InvalidName);
}

#[test]
fn name_validation_allow_list() {
    assert!(check_wallet_name("alice"));
    assert!(check_wallet_name("A-Z_09"));
    assert!(!check_wallet_name(""));
    assert!(!check_wallet_name("a/b"));
    assert!(!check_wallet_name(".."));
    assert!(!check_wallet_name("a b"));
    assert!(!check_wallet_name("caf\u{e9}"));
    let long: String = std::iter::repeat('a').take(65).collect();
    assert!(!check_wallet_name(&long));
    let max: String = std::iter::repeat('a').take(64).collect();
    assert!(check_wallet_name(&max));
}

#[test]
fn master_key_matches_derivation_standard_vectors() {
    // Test vectors from the hierarchical derivation standard the key
    // derivation crate implements (seed, master key, child 0 / child
    // 4294967295 hardened).
    let seed = hex::decode(
        "c55257c360c07c72029aebc1b53c05ed0362ada38ead3e3e9efa3708e53495531f09a6987599d18264c1e1c92f2cf141630c7a3c4ab7c81b2f001698e7463b04",
    )
    .unwrap();
    let master = derive_master_key(&seed).unwrap();
    assert_eq!(
        hex::encode(&master),
        "0d7359d57963ab8fbbde1852dcf553fedbc31f464d80ee7d40ae683122b45070"
    );
    let child = derive_child_key(&master, 0).unwrap();
    assert_eq!(
        hex::encode(&child),
        "2d18bd6c14e6d15bf8b5085c9b74f3daae3b03cc2014770a599d8c1539e50f8e"
    );

    let seed = hex::decode("0099FF991111002299DD7744EE3355BBDD8844115566CC55663355668888CC00")
        .unwrap();
    let master = derive_master_key(&seed).unwrap();
    assert_eq!(
        hex::encode(&master),
        "3cfa341ab3910a7d00d933d8f7c4fe87c91798a0397421d6b19fd5b815132e80"
    );
    let child = derive_child_key(&master, 4294967295).unwrap();
    assert_eq!(
        hex::encode(&child),
        "40e86285582f35b28821340f6a53b448588efa575bc4d88c32ef8567b8d9479b"
    );
}

#[test]
fn key_pair_matches_stored_address() {
    let (wallet, _phrase) = create_random_wallet("alice", "pw1").unwrap();
    for index in [0u32, 1, 19] {
        let (secret, public) = bls_wallet::get_key_pair(&wallet, "pw1", index).unwrap();
        assert_eq!(public, wallet.addresses[index as usize]);
        assert_eq!(to_public_key(&secret).unwrap(), public);
    }
    assert_eq!(
        bls_wallet::get_key_pair(&wallet, "wrong", 0).unwrap_err(),
        Error::DecryptionFailed
    );
}

#[test]
fn tamper_in_any_byte_fails_decryption() {
    // One flipped bit per sampled position, spread over every byte of
    // the ciphertext and the tag; the password hash is memory-hard, so
    // the positions are sampled to keep the runtime down.
    let wallet = create_wallet_from_mnemonic(PHRASE, "alice", "pw1").unwrap();
    for pos in (0..wallet.encrypted_entropy.len()).step_by(3) {
        let mut ciphertext = wallet.encrypted_entropy.clone();
        ciphertext[pos] ^= 1 << (pos % 8);
        assert_eq!(
            decrypt(&ciphertext, "pw1").unwrap_err(),
            Error::DecryptionFailed
        );
    }
}
