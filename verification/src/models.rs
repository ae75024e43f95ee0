//! Domain records and the error taxonomy.
//!
//! Identities are canonical identifier strings (see `ids`). A stock price is
//! carried as the bit pattern of its 64-bit binary floating-point value, so
//! that the exact stored price round-trips through this library unchanged;
//! conversion to and from the numeric form happens outside it.

use vstd::prelude::*;

verus! {

/// The kind of a ledger transaction.
#[derive(Clone, Copy, Debug, PartialEq, Eq, Structural)]
pub enum TxKind {
    Buy,
    Sell,
}

impl TxKind {
    /// The wire/storage spelling of this kind.
    pub fn as_str(&self) -> (r: &'static str)
        ensures
            *self == TxKind::Buy ==> r@ == "buy"@,
            *self == TxKind::Sell ==> r@ == "sell"@,
    {
        match self {
            TxKind::Buy => "buy",
            TxKind::Sell => "sell",
        }
    }
}

/// A registered user, as stored: identity, unique username, and the salted
/// one-way hash of the password (never the password itself).
#[derive(Clone, Debug)]
pub struct User {
    pub id: String,
    pub username: String,
    pub hashed_password: String,
}

/// A stock listing: identity, unique ticker symbol, and the current price
/// as the bit pattern of its 64-bit floating-point value.
#[derive(Clone, Debug)]
pub struct Stock {
    pub id: String,
    pub symbol: String,
    pub price_bits: u64,
}

/// An immutable ledger row: fresh identity, owning user, referenced stock,
/// signed quantity as given, and the kind of the transaction.
#[derive(Clone, Debug)]
pub struct Transaction {
    pub id: String,
    pub user_id: String,
    pub stock_id: String,
    pub quantity: i32,
    pub transaction_type: TxKind,
}

/// Body of a login request: the username and the password candidate to be
/// checked against the stored hash (the field keeps its wire name).
#[derive(Clone, Debug)]
pub struct LoginRequest {
    pub username: String,
    pub hashed_password: String,
}

/// Successful login answer: the minted bearer credential.
#[derive(Clone, Debug)]
pub struct LoginResponse {
    pub token: String,
}

/// Body of a buy or sell request. The owning user is never taken from here;
/// it comes from the verified credential alone.
#[derive(Clone, Debug)]
pub struct TransactionRequest {
    pub stock_id: String,
    pub quantity: i32,
}

/// A transaction row as the store hands it back: every identity still a
/// string, the kind still its stored spelling. The gateway validates it
/// into a `Transaction` or rejects it as malformed.
#[derive(Clone, Debug)]
pub struct TransactionRow {
    pub id: String,
    pub user_id: String,
    pub stock_id: String,
    pub quantity: i32,
    pub transaction_type: String,
}

/// A stock row as the store hands it back for a symbol lookup.
#[derive(Clone, Debug)]
pub struct StockRow {
    pub id: String,
    pub price_bits: u64,
}

/// The error taxonomy of the gateway. `Unauthorized` carries an
/// internal-only detail; callers are shown one uniform message so that the
/// root cause (unknown user, bad password, bad signature, expiry) never
/// leaks.
#[derive(Clone, Debug)]
pub enum ApiError {
    Unauthorized { detail: String },
    NotFound,
    Internal { detail: String },
}

impl ApiError {
    /// The HTTP status this error maps to.
    pub fn status_code(&self) -> (r: u16)
        ensures
            self is Unauthorized <==> r == 401,
            self is NotFound <==> r == 404,
            self is Internal <==> r == 500,
    {
        match self {
            ApiError::Unauthorized { .. } => 401,
            ApiError::NotFound => 404,
            ApiError::Internal { .. } => 500,
        }
    }

    /// The message shown to the caller. Every `Unauthorized` renders the
    /// same, whatever its internal detail, and no internal detail is ever
    /// part of the result.
    pub fn client_message(&self) -> (r: &'static str)
        ensures
            self is Unauthorized ==> r@ == "Invalid credentials"@,
            self is NotFound ==> r@ == "Not found"@,
            self is Internal ==> r@ == "Internal server error"@,
    {
        match self {
            ApiError::Unauthorized { .. } => "Invalid credentials",
            ApiError::NotFound => "Not found",
            ApiError::Internal { .. } => "Internal server error",
        }
    }
}

} // verus!
