use vstd::prelude::*;

pub mod cipher;
pub mod codec;
mod error;
pub mod hexstr;
pub mod keys;
pub mod mnemonic;
pub mod record;
mod textenc;

pub use cipher::{decrypt, encrypt, stretch};
pub use codec::{lemma_wallet_codec_round_trip, wallet_from_bytes, wallet_to_bytes, SCHEMA_VERSION};
pub use error::Error;
pub use hexstr::{hex_encode, hex_of};
pub use keys::{derive_child_key, derive_master_key, to_public_key};
pub use mnemonic::{entropy_to_mnemonic, generate_entropy, mnemonic_to_entropy, mnemonic_to_seed};
pub use record::{
    check_wallet_name, create_random_wallet, create_wallet_from_mnemonic, get_address,
    get_entropy, get_key_pair, get_mnemonic, restore_wallet, wallet_file_path,
    wallet_is_well_formed, Wallet,
};

verus! {

/// Number of receive addresses precomputed for every wallet, so that a
/// fresh address can be handed out without decrypting the entropy.
pub const ADDRESS_GAP: u64 = 20;

} // verus!
