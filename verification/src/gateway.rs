//! The transaction gateway: authorize each request, then shape exactly one
//! store operation.
//!
//! Every operation except login and the symbol lookup derives its acting
//! principal from the bearer credential in the authorization header — never
//! from a request body. The store is an external collaborator: callers run
//! the single query an operation needs and hand the raw rows in; this
//! module decides, validates and constructs, and every decision is
//! verified.

use vstd::prelude::*;
use crate::auth::{TokenAuthority, spec_validate, jwt_token_of, jwt_claims_of, TOKEN_TTL_SECONDS};
use crate::ids::{is_uuid_str, check_uuid_str};
use crate::models::{
    ApiError, LoginRequest, LoginResponse, Stock, StockRow, Transaction, TransactionRequest,
    TransactionRow, TxKind, User,
};

verus! {

/// Whether `candidate` matches the salted one-way `hashed` value: a
/// function of the two strings alone (salt and cost are read back out of
/// the hash itself).
pub uninterp spec fn bcrypt_matches(candidate: Seq<char>, hashed: Seq<char>) -> bool;

/// Relies on `bcrypt::verify`: re-derives the hash of `candidate` under
/// the salt and cost embedded in `hashed` and compares. Deterministic in
/// its two arguments; an error on a malformed hash counts as a mismatch.
#[verifier::external_body]
fn bcrypt_verify(candidate: &str, hashed: &str) -> (r: bool)
    ensures
        r == bcrypt_matches(candidate@, hashed@),
{
    bcrypt::verify(candidate, hashed).unwrap_or(false)
}

/// Relies on `uuid::Uuid::new_v4` and its hyphenated rendering: a fresh
/// random identity in canonical form. Beyond the shape, nothing is
/// promised of the value — two calls may return anything.
#[verifier::external_body]
fn fresh_transaction_id() -> (r: String)
    ensures
        is_uuid_str(r@),
{
    uuid::Uuid::new_v4().to_string()
}

/// The literal scheme prefix a bearer header must carry.
pub open spec fn bearer_prefix() -> Seq<char> {
    "Bearer "@
}

/// The view of an optional header value.
pub open spec fn opt_header_view(h: Option<&String>) -> Option<Seq<char>> {
    match h {
        None => None,
        Some(s) => Some(s@),
    }
}

/// Who a request is from, given its authorization header and the clock:
/// the subject of a credential that carries the scheme prefix, verifies
/// under `secret`, and names a canonical identity — or nobody.
pub open spec fn spec_authorize(secret: Seq<char>, header: Option<Seq<char>>, now: u64) -> Option<
    Seq<char>,
> {
    match header {
        None => None,
        Some(h) => if h.len() < 7 || h.subrange(0, 7) != bearer_prefix() {
            None
        } else {
            match spec_validate(secret, h.skip(7), now) {
                None => None,
                Some(sub) => if is_uuid_str(sub) {
                    Some(sub)
                } else {
                    None
                },
            }
        },
    }
}

/// Extract and check the bearer credential of a request. The resulting
/// identity is the authenticated principal for the rest of the operation;
/// every failure is the same uniform rejection.
pub fn authorize(authority: &TokenAuthority, header: Option<&String>, now: u64) -> (r: Result<
    String,
    ApiError,
>)
    ensures
        r matches Ok(p) ==> spec_authorize(authority@, opt_header_view(header), now) == Some(p@),
        r is Err <==> spec_authorize(authority@, opt_header_view(header), now) is None,
        r matches Err(e) ==> e is Unauthorized,
        r matches Ok(p) ==> is_uuid_str(p@),
{
    proof {
        reveal_strlit("Bearer ");
    }
    let h = match header {
        None => {
            return Err(
                ApiError::Unauthorized {
                    detail: String::from_str("missing authorization header"),
                },
            );
        },
        Some(h) => h,
    };
    let n = h.as_str().unicode_len();
    if n < 7 {
        return Err(
            ApiError::Unauthorized { detail: String::from_str("malformed authorization header") },
        );
    }
    let scheme_ok = h.as_str().get_char(0) == 'B' && h.as_str().get_char(1) == 'e'
        && h.as_str().get_char(2) == 'a' && h.as_str().get_char(3) == 'r'
        && h.as_str().get_char(4) == 'e' && h.as_str().get_char(5) == 'r'
        && h.as_str().get_char(6) == ' ';
    if !scheme_ok {
        assert(h@.subrange(0, 7) != bearer_prefix()) by {
            assert(forall|i: int| 0 <= i < 7 ==> h@.subrange(0, 7)[i] == h@[i]);
            if h@.subrange(0, 7) == bearer_prefix() {
                assert(h@[0] == 'B' && h@[1] == 'e' && h@[2] == 'a' && h@[3] == 'r' && h@[4]
                    == 'e' && h@[5] == 'r' && h@[6] == ' ');
            }
        };
        return Err(
            ApiError::Unauthorized { detail: String::from_str("missing bearer scheme") },
        );
    }
    assert(h@.subrange(0, 7) =~= bearer_prefix());
    let token = h.as_str().substring_char(7, n);
    assert(token@ =~= h@.skip(7));
    let sub = match authority.validate_token(token, now) {
        None => {
            return Err(ApiError::Unauthorized { detail: String::from_str("invalid token") });
        },
        Some(sub) => sub,
    };
    if !check_uuid_str(sub.as_str()) {
        return Err(
            ApiError::Unauthorized { detail: String::from_str("invalid user id in token") },
        );
    }
    Ok(sub)
}

/// Authenticate a user and mint a credential. The store row found for the
/// requested username comes in as `user` (or `None`); the password
/// candidate is checked against its stored hash. An unknown username and a
/// wrong password are the same uniform rejection. A stored identity that
/// is not canonical is excluded: the store never writes one.
pub fn login(
    authority: &TokenAuthority,
    user: Option<&User>,
    body: &LoginRequest,
    now: u64,
) -> (r: Result<LoginResponse, ApiError>)
    requires
        now + TOKEN_TTL_SECONDS <= u64::MAX,
        user matches Some(u) ==> is_uuid_str(u.id@),
    ensures
        r is Ok <==> (user matches Some(u) && bcrypt_matches(
            body.hashed_password@,
            u.hashed_password@,
        )),
        r matches Ok(resp) ==> (user matches Some(u) && resp.token@ == jwt_token_of(
            authority@,
            u.id@,
            (now + TOKEN_TTL_SECONDS) as u64,
        ) && jwt_claims_of(authority@, resp.token@) == Some(
            (u.id@, (now + TOKEN_TTL_SECONDS) as u64),
        )),
        r matches Err(e) ==> e is Unauthorized,
{
    let u = match user {
        None => {
            return Err(ApiError::Unauthorized { detail: String::from_str("unknown username") });
        },
        Some(u) => u,
    };
    if !bcrypt_verify(body.hashed_password.as_str(), u.hashed_password.as_str()) {
        return Err(ApiError::Unauthorized { detail: String::from_str("password mismatch") });
    }
    let token = authority.create_token(u.id.as_str(), now);
    Ok(LoginResponse { token })
}

/// Assemble the ledger row an authorized buy or sell persists: the given
/// fresh identity, the authenticated principal as owner, and the stock,
/// quantity and kind as given — the owner never comes from the body.
pub fn build_transaction(
    id: String,
    user_id: String,
    body: &TransactionRequest,
    kind: TxKind,
) -> (t: Transaction)
    ensures
        t.id == id,
        t.user_id == user_id,
        t.stock_id@ == body.stock_id@,
        t.quantity == body.quantity,
        t.transaction_type == kind,
{
    Transaction {
        id,
        user_id,
        stock_id: body.stock_id.clone(),
        quantity: body.quantity,
        transaction_type: kind,
    }
}

/// Authorize a buy and construct the row to persist. Succeeds exactly when
/// the credential authorizes — the quantity is recorded as given, any
/// integer, with no holdings or balance condition.
pub fn buy_stock(
    authority: &TokenAuthority,
    header: Option<&String>,
    body: &TransactionRequest,
    now: u64,
) -> (r: Result<Transaction, ApiError>)
    ensures
        r is Ok <==> spec_authorize(authority@, opt_header_view(header), now) is Some,
        r matches Ok(t) ==> {
            &&& Some(t.user_id@) == spec_authorize(authority@, opt_header_view(header), now)
            &&& t.stock_id@ == body.stock_id@
            &&& t.quantity == body.quantity
            &&& t.transaction_type == TxKind::Buy
            &&& is_uuid_str(t.id@)
        },
        r matches Err(e) ==> e is Unauthorized,
{
    let principal = match authorize(authority, header, now) {
        Ok(p) => p,
        Err(e) => {
            return Err(e);
        },
    };
    let id = fresh_transaction_id();
    Ok(build_transaction(id, principal, body, TxKind::Buy))
}

/// Authorize a sell and construct the row to persist. Identical to a buy
/// but for the kind: deliberately, no check that the seller holds what is
/// sold — success depends on the credential alone.
pub fn sell_stock(
    authority: &TokenAuthority,
    header: Option<&String>,
    body: &TransactionRequest,
    now: u64,
) -> (r: Result<Transaction, ApiError>)
    ensures
        r is Ok <==> spec_authorize(authority@, opt_header_view(header), now) is Some,
        r matches Ok(t) ==> {
            &&& Some(t.user_id@) == spec_authorize(authority@, opt_header_view(header), now)
            &&& t.stock_id@ == body.stock_id@
            &&& t.quantity == body.quantity
            &&& t.transaction_type == TxKind::Sell
            &&& is_uuid_str(t.id@)
        },
        r matches Err(e) ==> e is Unauthorized,
{
    let principal = match authorize(authority, header, now) {
        Ok(p) => p,
        Err(e) => {
            return Err(e);
        },
    };
    let id = fresh_transaction_id();
    Ok(build_transaction(id, principal, body, TxKind::Sell))
}

/// The stored spelling of a transaction kind, decoded.
pub open spec fn spec_tx_kind_of(s: Seq<char>) -> Option<TxKind> {
    if s == "buy"@ {
        Some(TxKind::Buy)
    } else if s == "sell"@ {
        Some(TxKind::Sell)
    } else {
        None
    }
}

/// Decode the stored spelling of a transaction kind.
pub fn parse_tx_kind(s: &String) -> (r: Option<TxKind>)
    ensures
        r == spec_tx_kind_of(s@),
{
    let buy = String::from_str("buy");
    if *s == buy {
        return Some(TxKind::Buy);
    }
    let sell = String::from_str("sell");
    if *s == sell {
        return Some(TxKind::Sell);
    }
    None
}

/// A stored row is sound for `principal`: canonical identities, a known
/// kind, and owned by that very principal.
pub open spec fn spec_row_ok(row: TransactionRow, principal: Seq<char>) -> bool {
    &&& is_uuid_str(row.id@)
    &&& is_uuid_str(row.user_id@)
    &&& is_uuid_str(row.stock_id@)
    &&& spec_tx_kind_of(row.transaction_type@) is Some
    &&& row.user_id@ == principal
}

/// The record a sound stored row validates into: the same fields, the kind
/// decoded.
pub open spec fn tx_matches_row(t: Transaction, row: TransactionRow) -> bool {
    &&& t.id@ == row.id@
    &&& t.user_id@ == row.user_id@
    &&& t.stock_id@ == row.stock_id@
    &&& t.quantity == row.quantity
    &&& Some(t.transaction_type) == spec_tx_kind_of(row.transaction_type@)
}

/// Validate the rows the store returned for `principal` into ledger
/// records, in the order given. Succeeds exactly when every row is sound
/// and owned by the principal; one malformed or foreign row fails the
/// whole read as an internal fault. An empty answer is an empty list.
pub fn get_transactions(principal: &String, rows: &Vec<TransactionRow>) -> (r: Result<
    Vec<Transaction>,
    ApiError,
>)
    ensures
        r is Ok <==> (forall|i: int| 0 <= i < rows@.len() ==> spec_row_ok(rows@[i], principal@)),
        r matches Ok(v) ==> {
            &&& v@.len() == rows@.len()
            &&& (forall|i: int| 0 <= i < rows@.len() ==> tx_matches_row(v@[i], rows@[i]))
            &&& (forall|i: int| 0 <= i < v@.len() ==> v@[i].user_id@ == principal@)
        },
        r matches Err(e) ==> e is Internal,
{
    let mut out: Vec<Transaction> = Vec::new();
    let mut i: usize = 0;
    while i < rows.len()
        invariant
            i <= rows@.len(),
            out@.len() == i,
            forall|j: int| 0 <= j < i ==> spec_row_ok(rows@[j], principal@),
            forall|j: int| 0 <= j < i ==> tx_matches_row(out@[j], rows@[j]),
        decreases rows@.len() - i,
    {
        let row = &rows[i];
        if !check_uuid_str(row.id.as_str()) {
            return Err(ApiError::Internal { detail: String::from_str("invalid id field") });
        }
        if !check_uuid_str(row.user_id.as_str()) {
            return Err(ApiError::Internal { detail: String::from_str("invalid user_id field") });
        }
        if !check_uuid_str(row.stock_id.as_str()) {
            return Err(ApiError::Internal { detail: String::from_str("invalid stock_id field") });
        }
        let kind = match parse_tx_kind(&row.transaction_type) {
            None => {
                return Err(
                    ApiError::Internal {
                        detail: String::from_str("invalid transaction_type field"),
                    },
                );
            },
            Some(k) => k,
        };
        if !(row.user_id == *principal) {
            return Err(ApiError::Internal { detail: String::from_str("row not owned by caller") });
        }
        out.push(
            Transaction {
                id: row.id.clone(),
                user_id: row.user_id.clone(),
                stock_id: row.stock_id.clone(),
                quantity: row.quantity,
                transaction_type: kind,
            },
        );
        i += 1;
    }
    Ok(out)
}

/// Answer a symbol lookup from what the store returned: no row (or a
/// failed lookup, collapsed by the caller into no row) is the uniform
/// not-found; a sound row is the stock with its exact stored price; a row
/// whose identity is not canonical is an internal fault.
pub fn get_stock(symbol: String, row: Option<StockRow>) -> (r: Result<Stock, ApiError>)
    ensures
        row is None ==> (r matches Err(e) && e is NotFound),
        row matches Some(rw) ==> ((is_uuid_str(rw.id@) ==> (r matches Ok(s) && s.id@ == rw.id@
            && s.symbol@ == symbol@ && s.price_bits == rw.price_bits)) && (!is_uuid_str(rw.id@)
            ==> (r matches Err(e) && e is Internal))),
{
    let rw = match row {
        None => {
            return Err(ApiError::NotFound);
        },
        Some(rw) => rw,
    };
    if !check_uuid_str(rw.id.as_str()) {
        return Err(ApiError::Internal { detail: String::from_str("invalid id field") });
    }
    Ok(Stock { id: rw.id, symbol, price_bits: rw.price_bits })
}

} // verus!
