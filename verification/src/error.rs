use vstd::prelude::*;

verus! {

/// Every failure an engine operation can report.  No operation panics on
/// malformed external input: each kind below names one way an operation
/// can go wrong, and every public function says in its contract exactly
/// which kinds it can return and when.
#[derive(Clone, Copy, Debug, PartialEq, Eq, Structural)]
pub enum Error {
    /// The storage root cannot be created or accessed.
    DirectoryError,
    /// The referenced wallet name has no stored record.
    WalletNotFound,
    /// I/O failure while reading an existing record.
    WalletReadError,
    /// A stored record does not decode under the wallet schema.
    WalletCorrupt,
    /// A phrase fails wordlist or checksum validation.
    MnemonicInvalid,
    /// The entropy length does not correspond to a supported phrase length.
    EntropyConversionError,
    /// Curve arithmetic degeneracy during key derivation.
    KeyDerivationFailed,
    /// Password hashing or cipher failure while encrypting.
    EncryptionFailed,
    /// Authentication failure while decrypting: wrong password and
    /// tampered ciphertext are deliberately indistinguishable.
    DecryptionFailed,
    /// A wallet record could not be written to durable storage.
    PersistError,
    /// A wallet name contains characters that are not allowed as a
    /// storage key (path separators, dots, control characters).
    InvalidName,
}

impl Error {
    /// A short human-readable description, for the shell layer.
    pub fn message(&self) -> (r: &'static str)
        ensures r@.len() > 0,
    {
        let r = match self {
            Error::DirectoryError => "error accessing the wallet directory",
            Error::WalletNotFound => "wallet not found",
            Error::WalletReadError => "error reading wallet file",
            Error::WalletCorrupt => "error parsing wallet file",
            Error::MnemonicInvalid => "invalid mnemonic phrase",
            Error::EntropyConversionError => "unsupported entropy length",
            Error::KeyDerivationFailed => "error deriving key",
            Error::EncryptionFailed => "error encrypting entropy",
            Error::DecryptionFailed => "error decrypting entropy",
            Error::PersistError => "error writing wallet file",
            Error::InvalidName => "invalid wallet name",
        };
        proof {
            reveal_strlit("error accessing the wallet directory");
            reveal_strlit("wallet not found");
            reveal_strlit("error reading wallet file");
            reveal_strlit("error parsing wallet file");
            reveal_strlit("invalid mnemonic phrase");
            reveal_strlit("unsupported entropy length");
            reveal_strlit("error deriving key");
            reveal_strlit("error encrypting entropy");
            reveal_strlit("error decrypting entropy");
            reveal_strlit("error writing wallet file");
            reveal_strlit("invalid wallet name");
        }
        r
    }
}

} // verus!
