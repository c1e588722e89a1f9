use bls_wallet::{
    create_wallet_from_mnemonic, entropy_to_mnemonic, hex_encode, mnemonic_to_entropy,
    wallet_from_bytes, wallet_to_bytes, Error, SCHEMA_VERSION,
};

const PHRASE: &str = "abandon abandon abandon abandon abandon abandon abandon abandon abandon \
     abandon abandon abandon abandon abandon abandon abandon abandon abandon abandon abandon \
     abandon abandon abandon art";

#[test]
fn mnemonic_round_trip_zero_entropy() {
    let entropy = vec![0u8; 32];
    let phrase = entropy_to_mnemonic(&entropy).unwrap();
    let back = mnemonic_to_entropy(&phrase).unwrap();
    assert_eq!(back, entropy);
}

#[test]
fn mnemonic_round_trip_patterned_entropy() {
    let entropy: Vec<u8> = (0u8..32u8).collect();
    let phrase = entropy_to_mnemonic(&entropy).unwrap();
    let back = mnemonic_to_entropy(&phrase).unwrap();
    assert_eq!(back, entropy);
}

#[test]
fn mnemonic_of_256_bits_has_24_words() {
    let entropy = vec![0x5au8; 32];
    let phrase = entropy_to_mnemonic(&entropy).unwrap();
    assert_eq!(phrase.split_whitespace().count(), 24);
}

#[test]
fn zero_entropy_phrase_is_the_known_one() {
    let entropy = vec![0u8; 32];
    let phrase = entropy_to_mnemonic(&entropy).unwrap();
    assert_eq!(phrase, PHRASE);
}

#[test]
fn unsupported_entropy_length_is_rejected() {
    let entropy = vec![0u8; 31];
    assert_eq!(
        entropy_to_mnemonic(&entropy).unwrap_err(),
        Error::EntropyConversionError
    );
}

#[test]
fn bad_phrase_is_rejected() {
    assert_eq!(
        mnemonic_to_entropy("definitely not a phrase").unwrap_err(),
        Error::MnemonicInvalid
    );
}

#[test]
fn phrase_with_bad_checksum_is_rejected() {
    // 24 valid words whose embedded checksum does not match.
    let phrase = "abandon abandon abandon abandon abandon abandon abandon abandon abandon \
         abandon abandon abandon abandon abandon abandon abandon abandon abandon abandon \
         abandon abandon abandon abandon abandon";
    assert_eq!(
        mnemonic_to_entropy(phrase).unwrap_err(),
        Error::MnemonicInvalid
    );
}

#[test]
fn wallet_bytes_round_trip() {
    let wallet = create_wallet_from_mnemonic(PHRASE, "alice", "pw1").unwrap();
    let bytes = wallet_to_bytes(&wallet);
    assert_eq!(bytes[0], SCHEMA_VERSION);
    let back = wallet_from_bytes(&bytes).unwrap();
    assert_eq!(back.name, wallet.name);
    assert_eq!(back.addresses, wallet.addresses);
    assert_eq!(back.encrypted_entropy, wallet.encrypted_entropy);
    assert_eq!(back.checksum, wallet.checksum);
    assert_eq!(back.decryptor_hash, wallet.decryptor_hash);
}

#[test]
fn truncated_wallet_bytes_are_corrupt() {
    let wallet = create_wallet_from_mnemonic(PHRASE, "alice", "pw1").unwrap();
    let bytes = wallet_to_bytes(&wallet);
    for cut in [0usize, 1, 2, 3, bytes.len() / 2, bytes.len() - 1] {
        let shorter: Vec<u8> = bytes[..cut].to_vec();
        assert_eq!(
            wallet_from_bytes(&shorter).unwrap_err(),
            Error::WalletCorrupt
        );
    }
}

#[test]
fn wrong_version_byte_is_corrupt() {
    let wallet = create_wallet_from_mnemonic(PHRASE, "alice", "pw1").unwrap();
    let mut bytes = wallet_to_bytes(&wallet);
    bytes[0] = SCHEMA_VERSION.wrapping_add(1);
    assert_eq!(wallet_from_bytes(&bytes).unwrap_err(), Error::WalletCorrupt);
}

#[test]
fn trailing_garbage_is_corrupt() {
    let wallet = create_wallet_from_mnemonic(PHRASE, "alice", "pw1").unwrap();
    let mut bytes = wallet_to_bytes(&wallet);
    bytes.push(0);
    assert_eq!(wallet_from_bytes(&bytes).unwrap_err(), Error::WalletCorrupt);
}

#[test]
fn arbitrary_garbage_is_corrupt() {
    let garbage: Vec<u8> = (0u8..255u8).collect();
    assert_eq!(
        wallet_from_bytes(&garbage).unwrap_err(),
        Error::WalletCorrupt
    );
}

#[test]
fn hex_encode_known_value() {
    let bytes = vec![0x00u8, 0xff, 0x1a];
    assert_eq!(hex_encode(&bytes), "00ff1a");
}

#[test]
fn hex_encode_matches_reference() {
    let bytes: Vec<u8> = (0u8..=255u8).collect();
    assert_eq!(hex_encode(&bytes), hex::encode(&bytes));
}
