//! Errors as foreign callers see them: an integer code and a message.
//!
//! Every error that can reach a foreign caller is mapped to a
//! [`LibWalletError`]. The mapping is managed explicitly here; code 999 is
//! the catch-all for wallet errors that have no code of their own.

pub mod foreign;
pub mod wallet;

use vstd::prelude::*;
use vstd::string::*;

verus! {

/// What `{:?}` prints for a string: the string in quotes, with whatever
/// needs escaping escaped.
pub uninterp spec fn debug_text(text: Seq<char>) -> Seq<char>;

/// The `Debug` formatting of `str`, through `format!`. The result is the
/// rendering that the standard library defines for the given characters.
#[verifier::external_body]
fn debug_string(text: &str) -> (rendered: String)
    ensures
        rendered@ == debug_text(text@),
{
    format!("{:?}", text)
}

/// What `{:?}` prints for a variant that holds one string.
pub open spec fn debug_variant(name: Seq<char>, field: Seq<char>) -> Seq<char> {
    name + "("@ + debug_text(field) + ")"@
}

fn render_variant(name: &str, field: &str) -> (rendered: String)
    ensures
        rendered@ == debug_variant(name@, field@),
{
    let mut rendered = String::from_str(name);
    rendered.append("(");
    let quoted = debug_string(field);
    rendered.append(quoted.as_str());
    rendered.append(")");
    rendered
}

/// An error for use by foreign callers: an integer code and a message.
#[derive(Debug, Clone)]
pub struct LibWalletError {
    pub code: i32,
    pub message: String,
}

/// Errors of the foreign interface itself.
#[derive(Debug, PartialEq)]
pub enum InterfaceError {
    /// One of the parameters was null.
    NullError(String),
    /// An invalid pointer was passed in.
    PointerError(String),
    /// The length of an allocated object could not be checked.
    AllocationError,
    /// The supplied position was out of range.
    PositionInvalidError,
    /// The runtime could not be created.
    TokioError(String),
    /// The emoji id is invalid.
    InvalidEmojiId,
    /// An argument was invalid.
    InvalidArgument(String),
    /// Something went wrong inside.
    InternalError(String),
    /// The balance is unavailable.
    BalanceError,
}

impl InterfaceError {
    /// The code of each variant.
    pub open spec fn spec_code(&self) -> i32 {
        match self {
            InterfaceError::NullError(_) => 1,
            InterfaceError::AllocationError => 2,
            InterfaceError::PositionInvalidError => 3,
            InterfaceError::TokioError(_) => 4,
            InterfaceError::InvalidEmojiId => 6,
            InterfaceError::InvalidArgument(_) => 7,
            InterfaceError::BalanceError => 8,
            InterfaceError::PointerError(_) => 9,
            InterfaceError::InternalError(_) => 10,
        }
    }

    /// What `{:?}` prints for each variant.
    pub open spec fn spec_debug(&self) -> Seq<char> {
        match self {
            InterfaceError::NullError(s) => debug_variant("NullError"@, s@),
            InterfaceError::PointerError(s) => debug_variant("PointerError"@, s@),
            InterfaceError::AllocationError => "AllocationError"@,
            InterfaceError::PositionInvalidError => "PositionInvalidError"@,
            InterfaceError::TokioError(s) => debug_variant("TokioError"@, s@),
            InterfaceError::InvalidEmojiId => "InvalidEmojiId"@,
            InterfaceError::InvalidArgument(s) => debug_variant("InvalidArgument"@, s@),
            InterfaceError::InternalError(s) => debug_variant("InternalError"@, s@),
            InterfaceError::BalanceError => "BalanceError"@,
        }
    }

    /// The message of each variant: what `{:?}` prints for it, but for an
    /// unavailable balance, which has a text of its own, and for a pointer
    /// error, which names the pointer first.
    pub open spec fn spec_message(&self) -> Seq<char> {
        match self {
            InterfaceError::BalanceError => "Balance Unavailable"@,
            InterfaceError::PointerError(s) => "Pointer error on "@ + s@ + ":"@
                + self.spec_debug(),
            _ => self.spec_debug(),
        }
    }

    pub fn code(&self) -> (code: i32)
        ensures
            code == self.spec_code(),
    {
        match self {
            InterfaceError::NullError(_) => 1,
            InterfaceError::AllocationError => 2,
            InterfaceError::PositionInvalidError => 3,
            InterfaceError::TokioError(_) => 4,
            InterfaceError::InvalidEmojiId => 6,
            InterfaceError::InvalidArgument(_) => 7,
            InterfaceError::BalanceError => 8,
            InterfaceError::PointerError(_) => 9,
            InterfaceError::InternalError(_) => 10,
        }
    }

    /// What `{:?}` prints for this error.
    pub fn debug(&self) -> (rendered: String)
        ensures
            rendered@ == self.spec_debug(),
    {
        match self {
            InterfaceError::NullError(s) => render_variant("NullError", s.as_str()),
            InterfaceError::PointerError(s) => render_variant("PointerError", s.as_str()),
            InterfaceError::AllocationError => String::from_str("AllocationError"),
            InterfaceError::PositionInvalidError => String::from_str("PositionInvalidError"),
            InterfaceError::TokioError(s) => render_variant("TokioError", s.as_str()),
            InterfaceError::InvalidEmojiId => String::from_str("InvalidEmojiId"),
            InterfaceError::InvalidArgument(s) => render_variant("InvalidArgument", s.as_str()),
            InterfaceError::InternalError(s) => render_variant("InternalError", s.as_str()),
            InterfaceError::BalanceError => String::from_str("BalanceError"),
        }
    }
}

/// A `LibWalletError` holds a `String`, of which specifications see the
/// characters only. So each conversion into it says in its own clauses what
/// code and what characters come out, and claims no spec-level result.
impl From<InterfaceError> for LibWalletError {
    fn from(v: InterfaceError) -> (error: Self)
        ensures
            error.code == v.spec_code(),
            error.message@ == v.spec_message(),
    {
        let code = v.code();
        let message = match &v {
            InterfaceError::BalanceError => String::from_str("Balance Unavailable"),
            InterfaceError::PointerError(p) => {
                let mut message = String::from_str("Pointer error on ");
                message.append(p.as_str());
                message.append(":");
                let rendered = v.debug();
                message.append(rendered.as_str());
                message
            },
            _ => v.debug(),
        };
        LibWalletError { code, message }
    }
}

impl vstd::std_specs::convert::FromSpecImpl<InterfaceError> for LibWalletError {
    open spec fn obeys_from_spec() -> bool {
        false
    }

    open spec fn from_spec(v: InterfaceError) -> Self {
        arbitrary()
    }
}

/// Errors of a transaction handed over the foreign interface.
#[derive(Debug, PartialEq)]
pub enum TransactionError {
    /// The transaction has an incorrect status.
    StatusError(String),
    /// The transaction has the wrong number of kernels.
    KernelError(String),
}

impl TransactionError {
    pub open spec fn spec_code(&self) -> i32 {
        match self {
            TransactionError::StatusError(_) => 640,
            TransactionError::KernelError(_) => 650,
        }
    }

    /// What the error reads as.
    pub open spec fn spec_display(&self) -> Seq<char> {
        match self {
            TransactionError::StatusError(s) => "The transaction has an incorrect status: `"@
                + s@ + "`"@,
            TransactionError::KernelError(s) =>
                "The transaction has the wrong number of kernels: `"@ + s@ + "`"@,
        }
    }

    /// The message of each variant: a status error reads as it is displayed,
    /// a kernel error as `{:?}` prints it.
    pub open spec fn spec_message(&self) -> Seq<char> {
        match self {
            TransactionError::StatusError(_) => self.spec_display(),
            TransactionError::KernelError(s) => debug_variant("KernelError"@, s@),
        }
    }

    /// What the error reads as.
    pub fn display(&self) -> (text: String)
        ensures
            text@ == self.spec_display(),
    {
        match self {
            TransactionError::StatusError(s) => {
                let mut text = String::from_str("The transaction has an incorrect status: `");
                text.append(s.as_str());
                text.append("`");
                text
            },
            TransactionError::KernelError(s) => {
                let mut text = String::from_str(
                    "The transaction has the wrong number of kernels: `",
                );
                text.append(s.as_str());
                text.append("`");
                text
            },
        }
    }
}

impl From<TransactionError> for LibWalletError {
    fn from(v: TransactionError) -> (error: Self)
        ensures
            error.code == v.spec_code(),
            error.message@ == v.spec_message(),
    {
        match &v {
            TransactionError::StatusError(_) => LibWalletError { code: 640, message: v.display() },
            TransactionError::KernelError(s) => LibWalletError {
                code: 650,
                message: render_variant("KernelError", s.as_str()),
            },
        }
    }
}

impl vstd::std_specs::convert::FromSpecImpl<TransactionError> for LibWalletError {
    open spec fn obeys_from_spec() -> bool {
        false
    }

    open spec fn from_spec(v: TransactionError) -> Self {
        arbitrary()
    }
}

} // verus!
