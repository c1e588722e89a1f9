use vstd::prelude::*;
use crate::error::Error;
use rand::Rng;

verus! {

/// The BIP39 phrase encoding a given entropy: words from the English
/// list separated by single spaces, with the embedded checksum.  Names
/// the text that bip39::Mnemonic::from_entropy displays.
pub uninterp spec fn phrase_of(entropy: Seq<u8>) -> Seq<char>;

/// The entropy that bip39::Mnemonic::parse recovers from a string, or
/// None where the string is not a valid phrase (an unknown word, a bad
/// word count, or a checksum mismatch).
pub uninterp spec fn entropy_of_phrase(s: Seq<char>) -> Option<Seq<u8>>;

/// The 64-byte seed that BIP39 key stretching derives from a phrase and
/// a passphrase.  Names the result of bip39::Mnemonic::to_seed.
pub uninterp spec fn seed_of(phrase: Seq<char>, passphrase: Seq<char>) -> Seq<u8>;

/// The entropy lengths with a phrase encoding: 128 to 256 bits in
/// 32-bit steps (12 to 24 words).
pub open spec fn valid_entropy_len(n: int) -> bool {
    n == 16 || n == 20 || n == 24 || n == 28 || n == 32
}

/// How many space characters a text holds.
pub open spec fn space_count(s: Seq<char>) -> int
    decreases s.len(),
{
    if s.len() == 0 {
        0
    } else {
        (if s[0] == ' ' {
            1int
        } else {
            0int
        }) + space_count(s.drop_first())
    }
}

/// The shape of a phrase of `spaces + 1` words: nonempty, no space at
/// either end, never two spaces in a row, and exactly `spaces` single
/// spaces between the words.
pub open spec fn phrase_shape(s: Seq<char>, spaces: int) -> bool {
    &&& s.len() > 0
    &&& s[0] != ' '
    &&& s[s.len() - 1] != ' '
    &&& (forall|i: int| 0 < i < s.len() ==> !(s[i - 1] == ' ' && #[trigger] s[i] == ' '))
    &&& space_count(s) == spaces
}

/// Relies on bip39::Mnemonic::from_entropy, which accepts exactly the
/// entropy lengths valid_entropy_len describes, and on its display
/// form: three words for every four entropy bytes, the words from the
/// wordlist joined by single spaces; parsing the displayed phrase
/// recovers the same entropy.
#[verifier::external_body]
fn phrase_from_entropy(entropy: &Vec<u8>) -> (r: Option<String>)
    ensures
        r matches Some(s) ==> s@ == phrase_of(entropy@) && entropy_of_phrase(s@) == Some(
            entropy@,
        ) && phrase_shape(s@, 3 * entropy@.len() as int / 4 - 1),
        r is Some <==> valid_entropy_len(entropy@.len() as int),
{
    match bip39::Mnemonic::from_entropy(entropy.as_slice()) {
        Ok(m) => Some(m.to_string()),
        Err(_) => None,
    }
}

/// Relies on bip39::Mnemonic::parse and Mnemonic::to_entropy: parse
/// succeeds exactly on valid phrases, and to_entropy recovers the
/// entropy the phrase encodes.
#[verifier::external_body]
fn entropy_from_phrase(s: &str) -> (r: Option<Vec<u8>>)
    ensures
        r matches Some(e) ==> entropy_of_phrase(s@) == Some(e@) && valid_entropy_len(
            e@.len() as int,
        ),
        r is None ==> entropy_of_phrase(s@) is None,
{
    match bip39::Mnemonic::parse(s) {
        Ok(m) => Some(m.to_entropy()),
        Err(_) => None,
    }
}

/// Relies on bip39::Mnemonic::parse and Mnemonic::to_seed: the seed is
/// a deterministic function of the phrase and the passphrase alone, and
/// is 64 bytes long.
#[verifier::external_body]
fn seed_from_phrase(s: &str, passphrase: &str) -> (r: Option<Vec<u8>>)
    ensures
        r matches Some(sd) ==> sd@ == seed_of(s@, passphrase@) && sd@.len() == 64,
        r is Some <==> entropy_of_phrase(s@) is Some,
{
    match bip39::Mnemonic::parse(s) {
        Ok(m) => Some(m.to_seed(passphrase).to_vec()),
        Err(_) => None,
    }
}

/// Relies on rand::rng, a thread-local cryptographically secure random
/// generator, to fill the buffer; only the length holds of every
/// outcome.
#[verifier::external_body]
fn random_entropy_bytes() -> (r: Vec<u8>)
    ensures
        r@.len() == 32,
{
    let mut b = vec![0u8; 32];
    rand::rng().fill_bytes(&mut b);
    b
}

/// Draws fresh 256-bit entropy from the process's secure random source.
pub fn generate_entropy() -> (r: Vec<u8>)
    ensures
        r@.len() == 32,
{
    random_entropy_bytes()
}

/// Encodes entropy as its backup phrase: three words for every four
/// entropy bytes.  Succeeds exactly on the supported entropy lengths;
/// parsing the returned phrase gives the entropy back.
pub fn entropy_to_mnemonic(entropy: &Vec<u8>) -> (r: Result<String, Error>)
    ensures
        r matches Ok(s) ==> s@ == phrase_of(entropy@) && entropy_of_phrase(s@) == Some(entropy@)
            && phrase_shape(s@, 3 * entropy@.len() as int / 4 - 1),
        r is Ok <==> valid_entropy_len(entropy@.len() as int),
        r matches Err(e) ==> e == Error::EntropyConversionError,
{
    match phrase_from_entropy(entropy) {
        Some(s) => Ok(s),
        None => Err(Error::EntropyConversionError),
    }
}

/// Decodes a backup phrase to the entropy it encodes.  Fails exactly on
/// strings that are not valid phrases.
pub fn mnemonic_to_entropy(mnemonic: &str) -> (r: Result<Vec<u8>, Error>)
    ensures
        r matches Ok(e) ==> entropy_of_phrase(mnemonic@) == Some(e@) && valid_entropy_len(
            e@.len() as int,
        ),
        r matches Err(e) ==> e == Error::MnemonicInvalid && entropy_of_phrase(mnemonic@) is None,
{
    match entropy_from_phrase(mnemonic) {
        Some(e) => Ok(e),
        None => Err(Error::MnemonicInvalid),
    }
}

/// Stretches a phrase (and optional passphrase) into the 64-byte seed
/// used for key derivation.  Deterministic; fails exactly on strings
/// that are not valid phrases.
pub fn mnemonic_to_seed(mnemonic: &str, passphrase: &str) -> (r: Result<Vec<u8>, Error>)
    ensures
        r matches Ok(sd) ==> sd@ == seed_of(mnemonic@, passphrase@) && sd@.len() == 64,
        r is Ok <==> entropy_of_phrase(mnemonic@) is Some,
        r matches Err(e) ==> e == Error::MnemonicInvalid,
{
    match seed_from_phrase(mnemonic, passphrase) {
        Some(sd) => Ok(sd),
        None => Err(Error::MnemonicInvalid),
    }
}

} // verus!
