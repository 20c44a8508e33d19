//! Errors returned by backend operations.

use vstd::prelude::*;
use crate::text::{decimal, push_decimal, string_from_chars, push_str_chars};

verus! {

/// Errors returned by `SpvBackend` operations.
#[derive(Debug, Clone, PartialEq, Eq)]
pub enum BackendError {
    /// No wallet has been created or loaded.
    NoWallet,
    /// The wallet already exists.
    WalletAlreadyExists,
    /// Invalid mnemonic phrase.
    InvalidMnemonic(String),
    /// Invalid address format or wrong network.
    InvalidAddress(String),
    /// Insufficient funds for the transaction.
    InsufficientFunds { available: u64, required: u64 },
    /// The client is not running.
    NotRunning,
    /// The client is already running.
    AlreadyRunning,
    /// A network or sync error occurred.
    Sync(String),
    /// A storage or persistence error occurred.
    Storage(String),
    /// An internal error occurred.
    Internal(String),
}

/// Result type for backend operations.
pub type BackendResult<T> = Result<T, BackendError>;

/// The human-readable message of an error.
pub open spec fn backend_error_text(e: BackendError) -> Seq<char> {
    match e {
        BackendError::NoWallet => "no wallet loaded"@,
        BackendError::WalletAlreadyExists => "wallet already exists"@,
        BackendError::InvalidMnemonic(m) => "invalid mnemonic: "@ + m@,
        BackendError::InvalidAddress(m) => "invalid address: "@ + m@,
        BackendError::InsufficientFunds { available, required } => "insufficient funds: have "@
            + decimal(available as nat) + ", need "@ + decimal(required as nat),
        BackendError::NotRunning => "client is not running"@,
        BackendError::AlreadyRunning => "client is already running"@,
        BackendError::Sync(m) => "sync error: "@ + m@,
        BackendError::Storage(m) => "storage error: "@ + m@,
        BackendError::Internal(m) => "internal error: "@ + m@,
    }
}

/// `prefix` followed by `rest`, as a new string.
fn prefixed(prefix: &str, rest: &String) -> (r: String)
    ensures
        r@ == prefix@ + rest@,
{
    let mut s = String::from_str(prefix);
    s.append(rest.as_str());
    s
}

impl BackendError {
    /// The human-readable message of this error (its display text).
    pub fn message(&self) -> (r: String)
        ensures
            r@ == backend_error_text(*self),
    {
        match self {
            BackendError::NoWallet => String::from_str("no wallet loaded"),
            BackendError::WalletAlreadyExists => String::from_str("wallet already exists"),
            BackendError::InvalidMnemonic(m) => prefixed("invalid mnemonic: ", m),
            BackendError::InvalidAddress(m) => prefixed("invalid address: ", m),
            BackendError::InsufficientFunds { available, required } => {
                let mut v: Vec<char> = Vec::new();
                push_str_chars(&mut v, "insufficient funds: have ");
                push_decimal(&mut v, *available);
                push_str_chars(&mut v, ", need ");
                push_decimal(&mut v, *required);
                string_from_chars(&v)
            },
            BackendError::NotRunning => String::from_str("client is not running"),
            BackendError::AlreadyRunning => String::from_str("client is already running"),
            BackendError::Sync(m) => prefixed("sync error: ", m),
            BackendError::Storage(m) => prefixed("storage error: ", m),
            BackendError::Internal(m) => prefixed("internal error: ", m),
        }
    }
}

/// Why the wallet's transaction builder failed.
#[derive(Debug, Clone, PartialEq, Eq)]
pub enum BuilderError {
    /// Not enough funds for the outputs and the fee.
    InsufficientFunds { available: u64, required: u64 },
    /// Coin selection found too few funds.
    SelectionInsufficientFunds { available: u64, required: u64 },
    /// Any other failure, by its message.
    Other(String),
}

/// The backend error reported for a transaction builder failure.
pub open spec fn builder_error_spec(e: BuilderError) -> BackendError {
    match e {
        BuilderError::InsufficientFunds { available, required } => BackendError::InsufficientFunds {
            available,
            required,
        },
        BuilderError::SelectionInsufficientFunds { available, required } => {
            BackendError::InsufficientFunds { available, required }
        },
        BuilderError::Other(m) => BackendError::Internal(m),
    }
}

/// Maps a transaction builder failure to a backend error: both kinds of
/// missing funds become `InsufficientFunds`, anything else `Internal`.
pub fn builder_error_to_backend(e: BuilderError) -> (r: BackendError)
    ensures
        r == builder_error_spec(e),
{
    match e {
        BuilderError::InsufficientFunds { available, required } => BackendError::InsufficientFunds {
            available,
            required,
        },
        BuilderError::SelectionInsufficientFunds { available, required } => {
            BackendError::InsufficientFunds { available, required }
        },
        BuilderError::Other(m) => BackendError::Internal(m),
    }
}

} // verus!
