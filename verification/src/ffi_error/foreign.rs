//! Errors of other crates, mapped for foreign callers.
//!
//! The errors themselves are opaque here. For each of them one function
//! tells its variants apart and one asks it for its `{:?}` text; both are
//! functions of the error alone and have names. The code is then decided on
//! the library's own copy of the variants.

use crate::ffi_error::LibWalletError;
use tari_crypto::signatures::SchnorrSignatureError;
use tari_crypto::tari_utilities::hex::HexError;
use tari_crypto::tari_utilities::ByteArrayError;
use vstd::prelude::*;
use vstd::string::*;

verus! {

/// `tari_utilities::hex::HexError`, opaque to the verifier.
#[verifier::external_type_specification]
#[verifier::external_body]
pub struct ExHexError(tari_crypto::tari_utilities::hex::HexError);

/// `tari_utilities::ByteArrayError`, opaque to the verifier.
#[verifier::external_type_specification]
#[verifier::external_body]
pub struct ExByteArrayError(tari_crypto::tari_utilities::ByteArrayError);

/// `tari_crypto::signatures::SchnorrSignatureError`, opaque to the verifier.
#[verifier::external_type_specification]
#[verifier::external_body]
pub struct ExSchnorrSignatureError(tari_crypto::signatures::SchnorrSignatureError);

/// `multiaddr::Error`, opaque to the verifier.
#[verifier::external_type_specification]
#[verifier::external_body]
pub struct ExMultiaddrError(multiaddr::Error);

/// The variants of a hex error.
#[derive(Clone, Copy, Debug, PartialEq, Eq, Structural)]
pub enum HexErrorKind {
    InvalidCharacter,
    LengthError,
    HexConversionError,
}

/// The variants of a byte array error.
#[derive(Clone, Copy, Debug, PartialEq, Eq, Structural)]
pub enum ByteArrayErrorKind {
    ConversionError,
    IncorrectLength,
}

/// The variants of a Schnorr signature error.
#[derive(Clone, Copy, Debug, PartialEq, Eq, Structural)]
pub enum SchnorrSignatureErrorKind {
    InvalidChallenge,
}

/// The variants of a multiaddr error, as far as they have codes of their own.
#[derive(Clone, Copy, Debug, PartialEq, Eq, Structural)]
pub enum MultiaddrErrorKind {
    ParsingError,
    InvalidMultiaddr,
    DataLessThanLen,
    InvalidProtocolString,
    UnknownProtocolString,
    InvalidUvar,
    Other,
}

impl HexErrorKind {
    pub open spec fn spec_code(&self) -> i32 {
        match self {
            HexErrorKind::HexConversionError => 404,
            HexErrorKind::LengthError => 501,
            HexErrorKind::InvalidCharacter => 503,
        }
    }

    pub fn code(&self) -> (code: i32)
        ensures
            code == self.spec_code(),
    {
        match self {
            HexErrorKind::HexConversionError => 404,
            HexErrorKind::LengthError => 501,
            HexErrorKind::InvalidCharacter => 503,
        }
    }
}

impl ByteArrayErrorKind {
    pub open spec fn spec_code(&self) -> i32 {
        match self {
            ByteArrayErrorKind::ConversionError => 404,
            ByteArrayErrorKind::IncorrectLength => 601,
        }
    }

    pub fn code(&self) -> (code: i32)
        ensures
            code == self.spec_code(),
    {
        match self {
            ByteArrayErrorKind::ConversionError => 404,
            ByteArrayErrorKind::IncorrectLength => 601,
        }
    }
}

impl SchnorrSignatureErrorKind {
    pub open spec fn spec_code(&self) -> i32 {
        901
    }

    pub fn code(&self) -> (code: i32)
        ensures
            code == self.spec_code(),
    {
        901
    }
}

impl MultiaddrErrorKind {
    pub open spec fn spec_code(&self) -> i32 {
        match self {
            MultiaddrErrorKind::ParsingError => 801,
            MultiaddrErrorKind::InvalidMultiaddr => 802,
            MultiaddrErrorKind::DataLessThanLen => 803,
            MultiaddrErrorKind::InvalidProtocolString => 804,
            MultiaddrErrorKind::UnknownProtocolString => 805,
            MultiaddrErrorKind::InvalidUvar => 806,
            MultiaddrErrorKind::Other => 810,
        }
    }

    /// The message of a multiaddr error: its `{:?}` text, with a prefix
    /// where the error has no code of its own.
    pub open spec fn spec_message(&self, debug: Seq<char>) -> Seq<char> {
        match self {
            MultiaddrErrorKind::Other => "Multiaddr error: "@ + debug,
            _ => debug,
        }
    }

    pub fn code(&self) -> (code: i32)
        ensures
            code == self.spec_code(),
    {
        match self {
            MultiaddrErrorKind::ParsingError => 801,
            MultiaddrErrorKind::InvalidMultiaddr => 802,
            MultiaddrErrorKind::DataLessThanLen => 803,
            MultiaddrErrorKind::InvalidProtocolString => 804,
            MultiaddrErrorKind::UnknownProtocolString => 805,
            MultiaddrErrorKind::InvalidUvar => 806,
            MultiaddrErrorKind::Other => 810,
        }
    }
}

/// The variant of a `HexError`, as the kind of the same name.
pub uninterp spec fn hex_error_variant(err: HexError) -> HexErrorKind;

/// What `{:?}` prints for a `HexError`.
pub uninterp spec fn hex_error_text(err: HexError) -> Seq<char>;

/// Tells the variants of `HexError` apart: each variant gives the kind of
/// the same name.
#[verifier::external_body]
fn hex_error_kind(err: &HexError) -> (kind: HexErrorKind)
    ensures
        kind == hex_error_variant(*err),
{
    match err {
        HexError::InvalidCharacter {  } => HexErrorKind::InvalidCharacter,
        HexError::LengthError {  } => HexErrorKind::LengthError,
        HexError::HexConversionError {  } => HexErrorKind::HexConversionError,
    }
}

/// The `{:?}` text of a `HexError`, as its own `Debug` prints it.
#[verifier::external_body]
fn hex_error_debug(err: &HexError) -> (text: String)
    ensures
        text@ == hex_error_text(*err),
{
    format!("{:?}", err)
}

/// The variant of a `ByteArrayError`, as the kind of the same name.
pub uninterp spec fn byte_array_error_variant(err: ByteArrayError) -> ByteArrayErrorKind;

/// What `{:?}` prints for a `ByteArrayError`.
pub uninterp spec fn byte_array_error_text(err: ByteArrayError) -> Seq<char>;

/// Tells the variants of `ByteArrayError` apart: each variant gives the kind
/// of the same name.
#[verifier::external_body]
fn byte_array_error_kind(err: &ByteArrayError) -> (kind: ByteArrayErrorKind)
    ensures
        kind == byte_array_error_variant(*err),
{
    match err {
        ByteArrayError::ConversionError { .. } => ByteArrayErrorKind::ConversionError,
        ByteArrayError::IncorrectLength {  } => ByteArrayErrorKind::IncorrectLength,
    }
}

/// The `{:?}` text of a `ByteArrayError`, as its own `Debug` prints it.
#[verifier::external_body]
fn byte_array_error_debug(err: &ByteArrayError) -> (text: String)
    ensures
        text@ == byte_array_error_text(*err),
{
    format!("{:?}", err)
}

/// The variant of a `SchnorrSignatureError`, as the kind of the same name.
pub uninterp spec fn schnorr_error_variant(err: SchnorrSignatureError) -> SchnorrSignatureErrorKind;

/// What `{:?}` prints for a `SchnorrSignatureError`.
pub uninterp spec fn schnorr_error_text(err: SchnorrSignatureError) -> Seq<char>;

/// Tells the variants of `SchnorrSignatureError` apart; there is one.
#[verifier::external_body]
fn schnorr_error_kind(err: &SchnorrSignatureError) -> (kind: SchnorrSignatureErrorKind)
    ensures
        kind == schnorr_error_variant(*err),
{
    match err {
        SchnorrSignatureError::InvalidChallenge => SchnorrSignatureErrorKind::InvalidChallenge,
    }
}

/// The `{:?}` text of a `SchnorrSignatureError`, as its own `Debug` prints
/// it.
#[verifier::external_body]
fn schnorr_error_debug(err: &SchnorrSignatureError) -> (text: String)
    ensures
        text@ == schnorr_error_text(*err),
{
    format!("{:?}", err)
}

/// The variant of a `multiaddr::Error`: the kind of the same name for the
/// six variants that have one, `Other` for every other variant.
pub uninterp spec fn multiaddr_error_variant(err: multiaddr::Error) -> MultiaddrErrorKind;

/// What `{:?}` prints for a `multiaddr::Error`.
pub uninterp spec fn multiaddr_error_text(err: multiaddr::Error) -> Seq<char>;

/// Tells the variants of `multiaddr::Error` apart. The enum is open to new
/// variants; those, and an unknown protocol id, are `Other`.
#[verifier::external_body]
fn multiaddr_error_kind(err: &multiaddr::Error) -> (kind: MultiaddrErrorKind)
    ensures
        kind == multiaddr_error_variant(*err),
{
    match err {
        multiaddr::Error::ParsingError(_) => MultiaddrErrorKind::ParsingError,
        multiaddr::Error::InvalidMultiaddr => MultiaddrErrorKind::InvalidMultiaddr,
        multiaddr::Error::DataLessThanLen => MultiaddrErrorKind::DataLessThanLen,
        multiaddr::Error::InvalidProtocolString => MultiaddrErrorKind::InvalidProtocolString,
        multiaddr::Error::UnknownProtocolString(_) => MultiaddrErrorKind::UnknownProtocolString,
        multiaddr::Error::InvalidUvar(_) => MultiaddrErrorKind::InvalidUvar,
        _ => MultiaddrErrorKind::Other,
    }
}

/// The `{:?}` text of a `multiaddr::Error`, as its own `Debug` prints it.
#[verifier::external_body]
fn multiaddr_error_debug(err: &multiaddr::Error) -> (text: String)
    ensures
        text@ == multiaddr_error_text(*err),
{
    format!("{:?}", err)
}

impl LibWalletError {
    /// A hex error of the given kind, with the given text as message.
    pub fn from_hex_kind(kind: HexErrorKind, message: String) -> (error: Self)
        ensures
            error.code == kind.spec_code(),
            error.message == message,
    {
        LibWalletError { code: kind.code(), message }
    }

    /// A byte array error of the given kind, with the given text as message.
    pub fn from_byte_array_kind(kind: ByteArrayErrorKind, message: String) -> (error: Self)
        ensures
            error.code == kind.spec_code(),
            error.message == message,
    {
        LibWalletError { code: kind.code(), message }
    }

    /// A signature error of the given kind, with the given text as message.
    pub fn from_schnorr_kind(kind: SchnorrSignatureErrorKind, message: String) -> (error: Self)
        ensures
            error.code == kind.spec_code(),
            error.message == message,
    {
        LibWalletError { code: kind.code(), message }
    }

    /// A multiaddr error of the given kind; `debug` is the error's `{:?}`
    /// text.
    pub fn from_multiaddr_kind(kind: MultiaddrErrorKind, debug: String) -> (error: Self)
        ensures
            error.code == kind.spec_code(),
            error.message@ == kind.spec_message(debug@),
    {
        let code = kind.code();
        let message = match kind {
            MultiaddrErrorKind::Other => {
                let mut message = String::from_str("Multiaddr error: ");
                message.append(debug.as_str());
                message
            },
            _ => debug,
        };
        LibWalletError { code, message }
    }
}

impl From<HexError> for LibWalletError {
    /// The code is that of the error's variant, and the message is what
    /// `{:?}` prints for the error.
    fn from(h: HexError) -> (error: Self)
        ensures
            error.code == hex_error_variant(h).spec_code(),
            error.message@ == hex_error_text(h),
    {
        let kind = hex_error_kind(&h);
        LibWalletError::from_hex_kind(kind, hex_error_debug(&h))
    }
}

impl vstd::std_specs::convert::FromSpecImpl<HexError> for LibWalletError {
    open spec fn obeys_from_spec() -> bool {
        false
    }

    open spec fn from_spec(v: HexError) -> Self {
        arbitrary()
    }
}

impl From<ByteArrayError> for LibWalletError {
    /// The code is that of the error's variant, and the message is what
    /// `{:?}` prints for the error.
    fn from(b: ByteArrayError) -> (error: Self)
        ensures
            error.code == byte_array_error_variant(b).spec_code(),
            error.message@ == byte_array_error_text(b),
    {
        let kind = byte_array_error_kind(&b);
        LibWalletError::from_byte_array_kind(kind, byte_array_error_debug(&b))
    }
}

impl vstd::std_specs::convert::FromSpecImpl<ByteArrayError> for LibWalletError {
    open spec fn obeys_from_spec() -> bool {
        false
    }

    open spec fn from_spec(v: ByteArrayError) -> Self {
        arbitrary()
    }
}

impl From<SchnorrSignatureError> for LibWalletError {
    /// The code is that of the error's variant, which is always 901, and the
    /// message is what `{:?}` prints for the error.
    fn from(err: SchnorrSignatureError) -> (error: Self)
        ensures
            error.code == schnorr_error_variant(err).spec_code(),
            error.code == 901,
            error.message@ == schnorr_error_text(err),
    {
        let kind = schnorr_error_kind(&err);
        LibWalletError::from_schnorr_kind(kind, schnorr_error_debug(&err))
    }
}

impl vstd::std_specs::convert::FromSpecImpl<SchnorrSignatureError> for LibWalletError {
    open spec fn obeys_from_spec() -> bool {
        false
    }

    open spec fn from_spec(v: SchnorrSignatureError) -> Self {
        arbitrary()
    }
}

impl From<multiaddr::Error> for LibWalletError {
    /// The code is that of the error's variant, and the message is what
    /// `{:?}` prints for the error, with a prefix where the variant has no
    /// code of its own.
    fn from(err: multiaddr::Error) -> (error: Self)
        ensures
            error.code == multiaddr_error_variant(err).spec_code(),
            error.message@ == multiaddr_error_variant(err).spec_message(
                multiaddr_error_text(err),
            ),
    {
        let kind = multiaddr_error_kind(&err);
        LibWalletError::from_multiaddr_kind(kind, multiaddr_error_debug(&err))
    }
}

impl vstd::std_specs::convert::FromSpecImpl<multiaddr::Error> for LibWalletError {
    open spec fn obeys_from_spec() -> bool {
        false
    }

    open spec fn from_spec(v: multiaddr::Error) -> Self {
        arbitrary()
    }
}

} // verus!
