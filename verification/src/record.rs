use vstd::prelude::*;
use vstd::string::StringExecFns;
use vstd::utf8::{encode_utf8, is_ascii_chars_encode_utf8};
use crate::cipher::{decrypt, encrypt, phc_string_of, pt_of, ct_of, stretch, stretched_of};
use crate::error::Error;
use crate::hexstr::{hex_encode, hex_of};
use crate::keys::{address_of, derive_child_key, derive_master_key, master_sk_of, scalar_wf, to_public_key};
use crate::mnemonic::{
    entropy_of_phrase, entropy_to_mnemonic, generate_entropy, mnemonic_to_entropy,
    mnemonic_to_seed, phrase_of, phrase_shape, seed_of, valid_entropy_len,
};
use crate::ADDRESS_GAP;

verus! {

/// The persisted wallet record: everything the engine keeps on disk for
/// one wallet name.
#[derive(Debug)]
pub struct Wallet {
    /// Human-chosen identifier; also the storage key.
    pub name: String,
    /// Compressed public keys for child keys 0 .. ADDRESS_GAP, kept in
    /// plaintext so handing out a receive address needs no password.
    pub addresses: Vec<Vec<u8>>,
    /// Ciphertext and authentication tag of the wallet's entropy under
    /// the password-based cipher.
    pub encrypted_entropy: Vec<u8>,
    /// Reserved for a future signature over the record; always empty.
    pub checksum: Vec<u8>,
    /// Password-verification hash (a PHC string); stored, but the real
    /// password check is decryption itself.
    pub decryptor_hash: String,
}

/// The mathematical content of a wallet record.
#[verifier::ext_equal]
pub ghost struct WalletView {
    pub name: Seq<char>,
    pub addresses: Seq<Seq<u8>>,
    pub encrypted_entropy: Seq<u8>,
    pub checksum: Seq<u8>,
    pub decryptor_hash: Seq<char>,
}

impl View for Wallet {
    type V = WalletView;

    open spec fn view(&self) -> WalletView {
        WalletView {
            name: self.name@,
            addresses: Seq::new(self.addresses@.len(), |i: int| self.addresses@[i]@),
            encrypted_entropy: self.encrypted_entropy@,
            checksum: self.checksum@,
            decryptor_hash: self.decryptor_hash@,
        }
    }
}

/// Bytes allowed in a wallet name, a restrictive allow-list: ASCII
/// letters, digits, '-' and '_'.  Path separators, dots and control
/// characters are all rejected, so a name can never escape the storage
/// directory.
pub open spec fn allowed_name_byte(b: u8) -> bool {
    (0x30 <= b <= 0x39) || (0x41 <= b <= 0x5a) || (0x61 <= b <= 0x7a) || b == 0x2d || b == 0x5f
}

/// A valid wallet name encodes to 1 to 64 allowed bytes.
pub open spec fn valid_wallet_name_bytes(b: Seq<u8>) -> bool {
    1 <= b.len() <= 64 && forall|i: int| 0 <= i < b.len() ==> allowed_name_byte(#[trigger] b[i])
}

/// Well-formedness of a wallet record: what every record the engine
/// writes satisfies, and what every record it accepts from storage is
/// checked against.
pub open spec fn wallet_wf(v: WalletView) -> bool {
    &&& valid_wallet_name_bytes(encode_utf8(v.name))
    &&& v.addresses.len() == ADDRESS_GAP
    &&& (forall|i: int| 0 <= i < v.addresses.len() ==> (#[trigger] v.addresses[i]).len() == 48)
    &&& v.encrypted_entropy.len() <= 255
    &&& v.checksum.len() <= 0xffff
    &&& encode_utf8(v.decryptor_hash).len() <= 0xffff
}

/// What a freshly built record promises: the name is kept, every
/// address is the compressed public key of the child key of its index,
/// the ciphertext authenticates and decrypts back to the entropy under
/// the password, the reserved checksum is empty, and the verification
/// hash is the password's canonical hash string.
pub open spec fn wallet_built(
    v: WalletView,
    name: Seq<char>,
    password: Seq<char>,
    phrase: Seq<char>,
    entropy: Seq<u8>,
) -> bool {
    let seed = seed_of(phrase, Seq::<char>::empty());
    &&& v.name == name
    &&& v.addresses.len() == ADDRESS_GAP
    &&& (forall|i: int|
        0 <= i < v.addresses.len() ==> #[trigger] v.addresses[i] == address_of(seed, i as u32))
    &&& v.encrypted_entropy == ct_of(stretched_of(password), entropy)
    &&& pt_of(stretched_of(password), v.encrypted_entropy) == Some(entropy)
    &&& v.checksum.len() == 0
    &&& v.decryptor_hash == phc_string_of(password)
}

/// Decides whether a byte string is allowed as a storage key.
pub fn check_name_bytes(bytes: &[u8]) -> (r: bool)
    ensures
        r == valid_wallet_name_bytes(bytes@),
{
    let n = bytes.len();
    if n < 1 || n > 64 {
        return false;
    }
    let mut i: usize = 0;
    while i < n
        invariant
            n == bytes@.len(),
            1 <= n <= 64,
            0 <= i <= n,
            forall|j: int| 0 <= j < i ==> allowed_name_byte(#[trigger] bytes@[j]),
        decreases n - i,
    {
        let b = bytes[i];
        let ok = (0x30 <= b && b <= 0x39) || (0x41 <= b && b <= 0x5a) || (0x61 <= b && b <= 0x7a)
            || b == 0x2d || b == 0x5f;
        if !ok {
            return false;
        }
        i = i + 1;
    }
    true
}

/// Decides whether a record is well-formed; what the engine writes and
/// reads always is, and unverified callers can check before asking for
/// an address.
pub fn wallet_is_well_formed(wallet: &Wallet) -> (r: bool)
    ensures
        r == wallet_wf(wallet@),
{
    if !check_name_bytes(wallet.name.as_str().as_bytes()) {
        return false;
    }
    if wallet.addresses.len() != 20 {
        return false;
    }
    let n = wallet.addresses.len();
    let mut i: usize = 0;
    while i < n
        invariant
            n == wallet.addresses@.len(),
            0 <= i <= n,
            forall|j: int| 0 <= j < i ==> (#[trigger] wallet.addresses@[j])@.len() == 48,
        decreases n - i,
    {
        if wallet.addresses[i].len() != 48 {
            proof {
                assert(wallet@.addresses[i as int].len() != 48);
            }
            return false;
        }
        i = i + 1;
    }
    proof {
        assert forall|j: int| 0 <= j < wallet@.addresses.len() implies (#[trigger] wallet@
            .addresses[j]).len() == 48 by {
            assert(wallet@.addresses[j] == wallet.addresses@[j]@);
        }
    }
    if wallet.encrypted_entropy.len() > 255 {
        return false;
    }
    if wallet.checksum.len() > 0xffff {
        return false;
    }
    if wallet.decryptor_hash.as_str().as_bytes().len() > 0xffff {
        return false;
    }
    true
}

/// Decides whether a name is allowed as a storage key.
pub fn check_wallet_name(name: &str) -> (r: bool)
    ensures
        r == valid_wallet_name_bytes(encode_utf8(name@)),
{
    check_name_bytes(name.as_bytes())
}

/// The storage path for a wallet name, under the dedicated storage
/// directory.  Rejects any name that is not a valid storage key.
pub fn wallet_file_path(name: &str) -> (r: Result<String, Error>)
    ensures
        r matches Ok(p) ==> p@ == "wallets/"@ + name@,
        r is Ok <==> valid_wallet_name_bytes(encode_utf8(name@)),
        r matches Err(e) ==> e == Error::InvalidName,
{
    if !check_wallet_name(name) {
        return Err(Error::InvalidName);
    }
    let mut p = String::from_str("wallets/");
    p.append(name);
    Ok(p)
}

/// Decrypts a wallet's entropy with the given password.  A wrong
/// password and a tampered ciphertext fail alike.
pub fn get_entropy(wallet: &Wallet, decryptor: &str) -> (r: Result<Vec<u8>, Error>)
    ensures
        r matches Ok(e) ==> pt_of(stretched_of(decryptor@), wallet@.encrypted_entropy) == Some(e@),
        encode_utf8(decryptor@).len() <= 0xffff_ffff && pt_of(
            stretched_of(decryptor@),
            wallet@.encrypted_entropy,
        ) is Some ==> r is Ok,
        r matches Err(e) ==> e == Error::DecryptionFailed,
{
    decrypt(&wallet.encrypted_entropy, decryptor)
}

/// Recovers the backup phrase of a wallet with the given password.
pub fn get_mnemonic(wallet: &Wallet, decryptor: &str) -> (r: Result<String, Error>)
    ensures
        r matches Ok(s) ==> (pt_of(stretched_of(decryptor@), wallet@.encrypted_entropy)
            matches Some(e) && s@ == phrase_of(e) && entropy_of_phrase(s@) == Some(e)),
        encode_utf8(decryptor@).len() <= 0xffff_ffff && (pt_of(
            stretched_of(decryptor@),
            wallet@.encrypted_entropy,
        ) matches Some(e) && valid_entropy_len(e.len() as int)) ==> r is Ok,
        r matches Err(e) ==> e == Error::DecryptionFailed || e == Error::EntropyConversionError,
{
    let entropy = match get_entropy(wallet, decryptor) {
        Ok(e) => e,
        Err(e) => {
            return Err(e);
        },
    };
    entropy_to_mnemonic(&entropy)
}

/// Supplies the secret key and public key for one address index, after
/// password-gated decryption of the wallet's entropy: the key source a
/// transfer layer needs.  The public key is derived from the secret
/// key, so on a record built with this password it equals the stored
/// address of the same index.
pub fn get_key_pair(wallet: &Wallet, decryptor: &str, index: u32) -> (r: Result<
    (Vec<u8>, Vec<u8>),
    Error,
>)
    ensures
        r matches Ok(p) ==> (pt_of(stretched_of(decryptor@), wallet@.encrypted_entropy)
            matches Some(e) && {
            let seed = seed_of(phrase_of(e), Seq::<char>::empty());
            &&& p.0@ == crate::keys::child_sk_of(master_sk_of(seed), index)
            &&& p.1@ == crate::keys::pubkey_of(p.0@)
            &&& p.1@ == address_of(seed, index)
        }),
        encode_utf8(decryptor@).len() <= 0xffff_ffff && (pt_of(
            stretched_of(decryptor@),
            wallet@.encrypted_entropy,
        ) matches Some(e) && valid_entropy_len(e.len() as int)) ==> r is Ok,
        r matches Err(e) ==> e == Error::DecryptionFailed || e == Error::EntropyConversionError,
{
    let entropy = match get_entropy(wallet, decryptor) {
        Ok(e) => e,
        Err(e) => {
            return Err(e);
        },
    };
    let phrase = match entropy_to_mnemonic(&entropy) {
        Ok(s) => s,
        Err(e) => {
            return Err(e);
        },
    };
    let seed = mnemonic_to_seed(phrase.as_str(), "").unwrap();
    proof {
        reveal_strlit("");
        assert(""@ =~= Seq::<char>::empty());
    }
    let master = derive_master_key(&seed).unwrap();
    let child = derive_child_key(&master, index).unwrap();
    let public = to_public_key(&child).unwrap();
    Ok((child, public))
}

/// The hex text of a wallet's first receive address; needs no password,
/// since addresses are plaintext.
pub fn get_address(wallet: &Wallet) -> (r: String)
    requires
        wallet_wf(wallet@),
    ensures
        r@ == hex_of(wallet@.addresses[0]),
{
    hex_encode(&wallet.addresses[0])
}

/// Builds (but does not persist) the wallet record for a parsed backup
/// phrase: derives the seed, the master key and ADDRESS_GAP child
/// addresses, encrypts the entropy under the password, and fills in the
/// verification hash.
pub fn create_wallet_from_mnemonic(mnemonic: &str, name: &str, decryptor: &str) -> (r: Result<
    Wallet,
    Error,
>)
    ensures
        r matches Ok(w) ==> wallet_wf(w@) && (entropy_of_phrase(mnemonic@) matches Some(e)
            && wallet_built(w@, name@, decryptor@, mnemonic@, e)),
        r matches Err(e) ==> e == Error::InvalidName || e == Error::MnemonicInvalid || e
            == Error::KeyDerivationFailed || e == Error::EncryptionFailed,
        r == Err::<Wallet, Error>(Error::InvalidName) <==> !valid_wallet_name_bytes(
            encode_utf8(name@),
        ),
        valid_wallet_name_bytes(encode_utf8(name@)) ==> ((r == Err::<Wallet, Error>(
            Error::MnemonicInvalid,
        )) <==> entropy_of_phrase(mnemonic@) is None),
        valid_wallet_name_bytes(encode_utf8(name@)) && entropy_of_phrase(mnemonic@) is Some
            && encode_utf8(decryptor@).len() <= 0xffff_ffff ==> r is Ok,
{
    if !check_wallet_name(name) {
        return Err(Error::InvalidName);
    }
    let entropy = match mnemonic_to_entropy(mnemonic) {
        Ok(e) => e,
        Err(e) => {
            return Err(e);
        },
    };
    let seed = mnemonic_to_seed(mnemonic, "").unwrap();
    proof {
        reveal_strlit("");
        assert(""@ =~= Seq::<char>::empty());
    }
    let master = derive_master_key(&seed).unwrap();
    let ghost seed_v = seed_of(mnemonic@, Seq::<char>::empty());
    let mut addresses: Vec<Vec<u8>> = Vec::new();
    let mut i: u32 = 0;
    while i < 20
        invariant
            0 <= i <= 20,
            addresses@.len() == i,
            forall|j: int| 0 <= j < i ==> (#[trigger] addresses@[j])@ == address_of(seed_v, j as u32),
            forall|j: int| 0 <= j < i ==> (#[trigger] addresses@[j])@.len() == 48,
            scalar_wf(master@),
            master@ == master_sk_of(seed_v),
        decreases 20 - i,
    {
        let child = derive_child_key(&master, i).unwrap();
        let pk = to_public_key(&child).unwrap();
        addresses.push(pk);
        i = i + 1;
    }
    let encrypted_entropy = match encrypt(&entropy, decryptor) {
        Ok(c) => c,
        Err(e) => {
            return Err(e);
        },
    };
    let (_key, decryptor_hash) = match stretch(decryptor) {
        Ok(p) => p,
        Err(e) => {
            return Err(e);
        },
    };
    proof {
        is_ascii_chars_encode_utf8(decryptor_hash@);
    }
    let wallet = Wallet {
        name: String::from_str(name),
        addresses,
        encrypted_entropy,
        checksum: Vec::new(),
        decryptor_hash,
    };
    proof {
        assert forall|j: int| 0 <= j < wallet@.addresses.len() implies #[trigger] wallet@
            .addresses[j] == address_of(seed_v, j as u32) by {
            assert(wallet@.addresses[j] == wallet.addresses@[j]@);
        }
        assert forall|j: int| 0 <= j < wallet@.addresses.len() implies (#[trigger] wallet@
            .addresses[j]).len() == 48 by {
            assert(wallet@.addresses[j] == wallet.addresses@[j]@);
        }
    }
    Ok(wallet)
}

/// Creates the record for a brand-new wallet from fresh random entropy
/// and returns it with the backup phrase: the caller's one chance to
/// record the phrase.
pub fn create_random_wallet(name: &str, decryptor: &str) -> (r: Result<(Wallet, String), Error>)
    ensures
        r matches Ok(p) ==> wallet_wf(p.0@) && phrase_shape(p.1@, 23) && (entropy_of_phrase(p.1@)
            matches Some(e) && e.len() == 32 && p.1@ == phrase_of(e) && wallet_built(
            p.0@,
            name@,
            decryptor@,
            p.1@,
            e,
        )),
        r matches Err(e) ==> e == Error::InvalidName || e == Error::KeyDerivationFailed || e
            == Error::EncryptionFailed,
        r is Err && !valid_wallet_name_bytes(encode_utf8(name@)) ==> r == Err::<
            (Wallet, String),
            Error,
        >(Error::InvalidName),
        valid_wallet_name_bytes(encode_utf8(name@)) ==> r != Err::<(Wallet, String), Error>(
            Error::InvalidName,
        ),
        valid_wallet_name_bytes(encode_utf8(name@)) && encode_utf8(decryptor@).len()
            <= 0xffff_ffff ==> r is Ok,
{
    let entropy = generate_entropy();
    let phrase = entropy_to_mnemonic(&entropy).unwrap();
    match create_wallet_from_mnemonic(phrase.as_str(), name, decryptor) {
        Ok(w) => Ok((w, phrase)),
        Err(e) => Err(e),
    }
}

/// Rebuilds a wallet record from an existing backup phrase, under a new
/// password.  The outcome is reported truthfully: a bad phrase or a
/// failed step is an error, never silent success.
pub fn restore_wallet(name: &str, decryptor: &str, mnemonic: &str) -> (r: Result<Wallet, Error>)
    ensures
        r matches Ok(w) ==> wallet_wf(w@) && (entropy_of_phrase(mnemonic@) matches Some(e)
            && wallet_built(w@, name@, decryptor@, mnemonic@, e)),
        r matches Err(e) ==> e == Error::InvalidName || e == Error::MnemonicInvalid || e
            == Error::KeyDerivationFailed || e == Error::EncryptionFailed,
        r == Err::<Wallet, Error>(Error::InvalidName) <==> !valid_wallet_name_bytes(
            encode_utf8(name@),
        ),
        valid_wallet_name_bytes(encode_utf8(name@)) ==> ((r == Err::<Wallet, Error>(
            Error::MnemonicInvalid,
        )) <==> entropy_of_phrase(mnemonic@) is None),
        valid_wallet_name_bytes(encode_utf8(name@)) && entropy_of_phrase(mnemonic@) is Some
            && encode_utf8(decryptor@).len() <= 0xffff_ffff ==> r is Ok,
{
    create_wallet_from_mnemonic(mnemonic, name, decryptor)
}

} // verus!
