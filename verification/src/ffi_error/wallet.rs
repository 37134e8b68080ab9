//! The wallet's own errors, as far as their codes depend on them.
//!
//! A wallet error is a tree of variants; its code depends on the path into
//! that tree and, in one place, on a text. The types here hold that path and
//! that text, and nothing else of the error.

use crate::ffi_error::LibWalletError;
use vstd::prelude::*;
use vstd::string::*;

verus! {

/// The text of the build error that has a code of its own.
pub open spec fn fee_exceeds_amount() -> Seq<char> {
    "Fee is greater than amount"@
}

/// What went wrong in the output manager's storage.
#[derive(Debug, PartialEq, Eq)]
pub enum OutputManagerStorageErrorKind {
    ValuesNotFound,
    OutputAlreadySpent,
    PendingTransactionNotFound,
    ValueNotFound,
    DuplicateOutput,
    Other,
}

/// What went wrong in the output manager.
#[derive(Debug, PartialEq, Eq)]
pub enum OutputManagerErrorKind {
    NotEnoughFunds,
    FundsPending,
    IncompleteTransaction,
    DuplicateOutput,
    Storage(OutputManagerStorageErrorKind),
    NoBaseNodeKeysProvided,
    /// The transaction could not be built; the text says why.
    BuildError(String),
    Other,
}

/// What went wrong in the transaction service's storage.
#[derive(Debug, PartialEq, Eq)]
pub enum TransactionStorageErrorKind {
    DuplicateOutput,
    ValueNotFound,
    Other,
}

/// What went wrong in the transaction service.
#[derive(Debug, PartialEq, Eq)]
pub enum TransactionServiceErrorKind {
    Storage(TransactionStorageErrorKind),
    OutputManager(OutputManagerErrorKind),
    InvalidStateError,
    TransactionProtocolError,
    RepeatedMessageError,
    TransactionDoesNotExistError,
    TransactionError,
    OutboundSendDiscoveryInProgress,
    NoBaseNodeKeysProvided,
    Other,
}

/// What went wrong in the contacts service's storage.
#[derive(Debug, PartialEq, Eq)]
pub enum ContactsServiceStorageErrorKind {
    ValuesNotFound,
    OperationNotSupported,
    ConversionError,
    Other,
}

/// What went wrong in the contacts service.
#[derive(Debug, PartialEq, Eq)]
pub enum ContactsServiceErrorKind {
    Storage(ContactsServiceStorageErrorKind),
    ContactNotFound,
    Other,
}

/// What went wrong in the wallet's own storage.
#[derive(Debug, PartialEq, Eq)]
pub enum WalletStorageErrorKind {
    InvalidEncryptionCipher,
    MissingNonce,
    AlreadyEncrypted,
    AeadError,
    ValuesNotFound,
    CannotAcquireFileLock,
    NoPasswordError,
    InvalidPassphrase,
    IoError,
    FileError,
    Other,
}

/// What went wrong in the key manager.
#[derive(Debug, PartialEq, Eq)]
pub enum KeyManagerErrorKind {
    InvalidData,
    VersionMismatch,
    DecryptionFailed,
    CrcError,
    Other,
}

/// What went wrong in the wallet: the service, and what went wrong in it.
#[derive(Debug, PartialEq, Eq)]
pub enum WalletErrorKind {
    OutputManager(OutputManagerErrorKind),
    TransactionService(TransactionServiceErrorKind),
    Multiaddr,
    StoreAndForward,
    ContactsService(ContactsServiceErrorKind),
    WalletStorage(WalletStorageErrorKind),
    UtxoScanner,
    KeyManager(KeyManagerErrorKind),
    SetLogger,
    Connectivity,
    ServiceInitialization,
    CommsInitialization,
    Other,
}

/// What is wrong with an address.
#[derive(Debug, PartialEq, Eq)]
pub enum TariAddressErrorKind {
    InvalidNetwork,
    CannotRecoverPublicKey,
    CannotRecoverFeature,
    CannotRecoverNetwork,
    InvalidSize,
    InvalidEmoji,
    InvalidFeatures,
    InvalidChecksum,
    InvalidAddressString,
    InvalidCharacter,
    CreationError,
}

/// The code for wallet errors that have none of their own.
pub const CATCH_ALL: i32 = 999;

impl OutputManagerErrorKind {
    /// The code of an output manager error that the wallet reports itself.
    pub open spec fn spec_code(&self) -> i32 {
        match self {
            OutputManagerErrorKind::NotEnoughFunds => 101,
            OutputManagerErrorKind::IncompleteTransaction => 102,
            OutputManagerErrorKind::DuplicateOutput => 103,
            OutputManagerErrorKind::Storage(OutputManagerStorageErrorKind::ValuesNotFound) => 104,
            OutputManagerErrorKind::Storage(
                OutputManagerStorageErrorKind::OutputAlreadySpent,
            ) => 105,
            OutputManagerErrorKind::Storage(
                OutputManagerStorageErrorKind::PendingTransactionNotFound,
            ) => 106,
            OutputManagerErrorKind::Storage(OutputManagerStorageErrorKind::ValueNotFound) => 108,
            OutputManagerErrorKind::NoBaseNodeKeysProvided => 109,
            OutputManagerErrorKind::Storage(OutputManagerStorageErrorKind::DuplicateOutput) => 112,
            OutputManagerErrorKind::FundsPending => 115,
            _ => 114,
        }
    }

    /// Whether this is the build error that says the fee is greater than
    /// the amount.
    pub open spec fn spec_is_fee_exceeds_amount(&self) -> bool {
        self matches OutputManagerErrorKind::BuildError(text) && text@ == fee_exceeds_amount()
    }

    /// The code of an output manager error that came up inside the
    /// transaction service.
    pub open spec fn spec_code_in_transaction_service(&self) -> i32 {
        if self is NotEnoughFunds {
            113
        } else if self.spec_is_fee_exceeds_amount() {
            212
        } else {
            206
        }
    }

    /// The code of this error when the wallet reports it itself.
    pub fn code(&self) -> (code: i32)
        ensures
            code == self.spec_code(),
    {
        match self {
            OutputManagerErrorKind::NotEnoughFunds => 101,
            OutputManagerErrorKind::FundsPending => 115,
            OutputManagerErrorKind::IncompleteTransaction => 102,
            OutputManagerErrorKind::DuplicateOutput => 103,
            OutputManagerErrorKind::Storage(storage) => match storage {
                OutputManagerStorageErrorKind::ValuesNotFound => 104,
                OutputManagerStorageErrorKind::OutputAlreadySpent => 105,
                OutputManagerStorageErrorKind::PendingTransactionNotFound => 106,
                OutputManagerStorageErrorKind::ValueNotFound => 108,
                OutputManagerStorageErrorKind::DuplicateOutput => 112,
                OutputManagerStorageErrorKind::Other => 114,
            },
            OutputManagerErrorKind::NoBaseNodeKeysProvided => 109,
            OutputManagerErrorKind::BuildError(_) => 114,
            OutputManagerErrorKind::Other => 114,
        }
    }

    pub fn is_fee_exceeds_amount(&self) -> (is: bool)
        ensures
            is == self.spec_is_fee_exceeds_amount(),
    {
        match self {
            OutputManagerErrorKind::BuildError(text) => {
                let expected = String::from_str("Fee is greater than amount");
                *text == expected
            },
            _ => false,
        }
    }

    pub fn code_in_transaction_service(&self) -> (code: i32)
        ensures
            code == self.spec_code_in_transaction_service(),
    {
        match self {
            OutputManagerErrorKind::NotEnoughFunds => 113,
            _ => if self.is_fee_exceeds_amount() {
                212
            } else {
                206
            },
        }
    }
}

impl TransactionServiceErrorKind {
    pub open spec fn spec_code(&self) -> i32 {
        match self {
            TransactionServiceErrorKind::Storage(TransactionStorageErrorKind::DuplicateOutput) => 103,
            TransactionServiceErrorKind::Storage(TransactionStorageErrorKind::ValueNotFound) => 111,
            TransactionServiceErrorKind::OutputManager(inner) =>
                inner.spec_code_in_transaction_service(),
            TransactionServiceErrorKind::InvalidStateError => 201,
            TransactionServiceErrorKind::TransactionProtocolError => 202,
            TransactionServiceErrorKind::RepeatedMessageError => 203,
            TransactionServiceErrorKind::TransactionDoesNotExistError => 204,
            TransactionServiceErrorKind::TransactionError => 207,
            TransactionServiceErrorKind::OutboundSendDiscoveryInProgress => 210,
            TransactionServiceErrorKind::NoBaseNodeKeysProvided => 212,
            _ => 211,
        }
    }

    pub fn code(&self) -> (code: i32)
        ensures
            code == self.spec_code(),
    {
        match self {
            TransactionServiceErrorKind::Storage(storage) => match storage {
                TransactionStorageErrorKind::DuplicateOutput => 103,
                TransactionStorageErrorKind::ValueNotFound => 111,
                TransactionStorageErrorKind::Other => 211,
            },
            TransactionServiceErrorKind::OutputManager(inner) =>
                inner.code_in_transaction_service(),
            TransactionServiceErrorKind::InvalidStateError => 201,
            TransactionServiceErrorKind::TransactionProtocolError => 202,
            TransactionServiceErrorKind::RepeatedMessageError => 203,
            TransactionServiceErrorKind::TransactionDoesNotExistError => 204,
            TransactionServiceErrorKind::TransactionError => 207,
            TransactionServiceErrorKind::OutboundSendDiscoveryInProgress => 210,
            TransactionServiceErrorKind::NoBaseNodeKeysProvided => 212,
            TransactionServiceErrorKind::Other => 211,
        }
    }
}

impl ContactsServiceErrorKind {
    pub open spec fn spec_code(&self) -> i32 {
        match self {
            ContactsServiceErrorKind::Storage(ContactsServiceStorageErrorKind::ValuesNotFound) => 110,
            ContactsServiceErrorKind::ContactNotFound => 401,
            ContactsServiceErrorKind::Storage(
                ContactsServiceStorageErrorKind::OperationNotSupported,
            ) => 403,
            ContactsServiceErrorKind::Storage(ContactsServiceStorageErrorKind::ConversionError) => 404,
            _ => CATCH_ALL,
        }
    }

    pub fn code(&self) -> (code: i32)
        ensures
            code == self.spec_code(),
    {
        match self {
            ContactsServiceErrorKind::Storage(storage) => match storage {
                ContactsServiceStorageErrorKind::ValuesNotFound => 110,
                ContactsServiceStorageErrorKind::OperationNotSupported => 403,
                ContactsServiceStorageErrorKind::ConversionError => 404,
                ContactsServiceStorageErrorKind::Other => CATCH_ALL,
            },
            ContactsServiceErrorKind::ContactNotFound => 401,
            ContactsServiceErrorKind::Other => CATCH_ALL,
        }
    }
}

impl WalletStorageErrorKind {
    pub open spec fn spec_code(&self) -> i32 {
        match self {
            WalletStorageErrorKind::InvalidEncryptionCipher => 420,
            WalletStorageErrorKind::MissingNonce => 421,
            WalletStorageErrorKind::AlreadyEncrypted => 422,
            WalletStorageErrorKind::AeadError => 423,
            WalletStorageErrorKind::ValuesNotFound => 424,
            WalletStorageErrorKind::CannotAcquireFileLock => 425,
            WalletStorageErrorKind::NoPasswordError => 426,
            WalletStorageErrorKind::InvalidPassphrase => 428,
            WalletStorageErrorKind::IoError => 433,
            WalletStorageErrorKind::FileError => 434,
            WalletStorageErrorKind::Other => 998,
        }
    }

    pub fn code(&self) -> (code: i32)
        ensures
            code == self.spec_code(),
    {
        match self {
            WalletStorageErrorKind::InvalidEncryptionCipher => 420,
            WalletStorageErrorKind::MissingNonce => 421,
            WalletStorageErrorKind::AlreadyEncrypted => 422,
            WalletStorageErrorKind::AeadError => 423,
            WalletStorageErrorKind::ValuesNotFound => 424,
            WalletStorageErrorKind::CannotAcquireFileLock => 425,
            WalletStorageErrorKind::NoPasswordError => 426,
            WalletStorageErrorKind::InvalidPassphrase => 428,
            WalletStorageErrorKind::IoError => 433,
            WalletStorageErrorKind::FileError => 434,
            WalletStorageErrorKind::Other => 998,
        }
    }
}

impl KeyManagerErrorKind {
    pub open spec fn spec_code(&self) -> i32 {
        match self {
            KeyManagerErrorKind::InvalidData => 429,
            KeyManagerErrorKind::VersionMismatch => 430,
            KeyManagerErrorKind::DecryptionFailed => 431,
            KeyManagerErrorKind::CrcError => 432,
            KeyManagerErrorKind::Other => CATCH_ALL,
        }
    }

    pub fn code(&self) -> (code: i32)
        ensures
            code == self.spec_code(),
    {
        match self {
            KeyManagerErrorKind::InvalidData => 429,
            KeyManagerErrorKind::VersionMismatch => 430,
            KeyManagerErrorKind::DecryptionFailed => 431,
            KeyManagerErrorKind::CrcError => 432,
            KeyManagerErrorKind::Other => CATCH_ALL,
        }
    }
}

impl WalletErrorKind {
    /// The code of a wallet error. Each service has its range; what has no
    /// code of its own gets the catch-all.
    pub open spec fn spec_code(&self) -> i32 {
        match self {
            WalletErrorKind::OutputManager(inner) => inner.spec_code(),
            WalletErrorKind::TransactionService(inner) => inner.spec_code(),
            WalletErrorKind::Multiaddr => 301,
            WalletErrorKind::StoreAndForward => 302,
            WalletErrorKind::ContactsService(inner) => inner.spec_code(),
            WalletErrorKind::WalletStorage(inner) => inner.spec_code(),
            WalletErrorKind::UtxoScanner => 427,
            WalletErrorKind::KeyManager(inner) => inner.spec_code(),
            WalletErrorKind::SetLogger => 994,
            WalletErrorKind::Connectivity => 995,
            WalletErrorKind::ServiceInitialization => 996,
            WalletErrorKind::CommsInitialization => 997,
            WalletErrorKind::Other => CATCH_ALL,
        }
    }

    pub fn code(&self) -> (code: i32)
        ensures
            code == self.spec_code(),
    {
        match self {
            WalletErrorKind::OutputManager(inner) => inner.code(),
            WalletErrorKind::TransactionService(inner) => inner.code(),
            WalletErrorKind::Multiaddr => 301,
            WalletErrorKind::StoreAndForward => 302,
            WalletErrorKind::ContactsService(inner) => inner.code(),
            WalletErrorKind::WalletStorage(inner) => inner.code(),
            WalletErrorKind::UtxoScanner => 427,
            WalletErrorKind::KeyManager(inner) => inner.code(),
            WalletErrorKind::SetLogger => 994,
            WalletErrorKind::Connectivity => 995,
            WalletErrorKind::ServiceInitialization => 996,
            WalletErrorKind::CommsInitialization => 997,
            WalletErrorKind::Other => CATCH_ALL,
        }
    }
}

impl TariAddressErrorKind {
    pub open spec fn spec_code(&self) -> i32 {
        match self {
            TariAddressErrorKind::InvalidNetwork => 701,
            TariAddressErrorKind::CannotRecoverPublicKey
            | TariAddressErrorKind::CannotRecoverFeature
            | TariAddressErrorKind::CannotRecoverNetwork => 702,
            TariAddressErrorKind::InvalidSize => 703,
            TariAddressErrorKind::InvalidEmoji => 704,
            TariAddressErrorKind::InvalidFeatures => 705,
            TariAddressErrorKind::InvalidChecksum => 706,
            TariAddressErrorKind::InvalidAddressString => 707,
            TariAddressErrorKind::InvalidCharacter => 708,
            TariAddressErrorKind::CreationError => 708,
        }
    }

    pub fn code(&self) -> (code: i32)
        ensures
            code == self.spec_code(),
    {
        match self {
            TariAddressErrorKind::InvalidNetwork => 701,
            TariAddressErrorKind::CannotRecoverPublicKey => 702,
            TariAddressErrorKind::CannotRecoverFeature => 702,
            TariAddressErrorKind::CannotRecoverNetwork => 702,
            TariAddressErrorKind::InvalidSize => 703,
            TariAddressErrorKind::InvalidEmoji => 704,
            TariAddressErrorKind::InvalidFeatures => 705,
            TariAddressErrorKind::InvalidChecksum => 706,
            TariAddressErrorKind::InvalidAddressString => 707,
            TariAddressErrorKind::InvalidCharacter => 708,
            TariAddressErrorKind::CreationError => 708,
        }
    }
}

/// The code of a store-and-forward error.
pub const STORE_AND_FORWARD: i32 = 902;

/// The code of a mnemonic error.
pub const MNEMONIC: i32 = 910;

/// The code of a key manager service error.
pub const KEY_MANAGER_SERVICE: i32 = 458;

impl LibWalletError {
    /// A wallet error for foreign callers: the code of its kind, and as
    /// message what the error has to say for itself.
    pub fn from_wallet_error(kind: &WalletErrorKind, message: String) -> (error: Self)
        ensures
            error.code == kind.spec_code(),
            error.message == message,
    {
        LibWalletError { code: kind.code(), message }
    }

    /// An address error for foreign callers.
    pub fn from_address_error(kind: &TariAddressErrorKind, message: String) -> (error: Self)
        ensures
            error.code == kind.spec_code(),
            error.message == message,
    {
        LibWalletError { code: kind.code(), message }
    }

    /// A store-and-forward error for foreign callers.
    pub fn from_store_and_forward_error(message: String) -> (error: Self)
        ensures
            error.code == STORE_AND_FORWARD,
            error.message == message,
    {
        LibWalletError { code: STORE_AND_FORWARD, message }
    }

    /// A mnemonic error for foreign callers.
    pub fn from_mnemonic_error(message: String) -> (error: Self)
        ensures
            error.code == MNEMONIC,
            error.message == message,
    {
        LibWalletError { code: MNEMONIC, message }
    }

    /// A key manager service error for foreign callers.
    pub fn from_key_manager_service_error(message: String) -> (error: Self)
        ensures
            error.code == KEY_MANAGER_SERVICE,
            error.message == message,
    {
        LibWalletError { code: KEY_MANAGER_SERVICE, message }
    }
}

/// No wallet error gets a code outside the ranges of the services: the
/// catch-all apart, every code lies between 101 and 998.
pub proof fn law_wallet_codes_are_in_range(kind: WalletErrorKind)
    ensures
        kind.spec_code() == CATCH_ALL || 101 <= kind.spec_code() <= 998,
        kind is Other ==> kind.spec_code() == CATCH_ALL,
{
}

} // verus!
