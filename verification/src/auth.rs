//! The token authority: minting and checking bearer credentials.
//!
//! A credential is a compact signed assertion of {subject, expiry}, signed
//! with a symmetric secret held by the authority alone. The secret is an
//! explicit constructor argument, never an ambient lookup: the weak-default
//! policy (a fixed fallback secret) is a visible, testable constructor.
//!
//! Signing and signature checking are done by `jsonwebtoken`; both are
//! deterministic in their arguments, so their results are named and the
//! expiry decision itself is made — and verified — here. The decoder is
//! asked for the claims without any time check; this module compares the
//! embedded expiry against the caller-supplied clock value.

use vstd::prelude::*;

verus! {

/// Seconds a freshly minted credential lives.
pub const TOKEN_TTL_SECONDS: u64 = 3600;

/// Clock-skew allowance (seconds) granted when checking expiry, the same
/// allowance the decoder's default validation grants.
pub const EXPIRY_LEEWAY_SECONDS: u64 = 60;

/// What `jsonwebtoken::encode` returns for the claim set {"sub", "exp"}
/// signed HS256 with `secret`: a function of the three arguments alone.
pub uninterp spec fn jwt_token_of(secret: Seq<char>, sub: Seq<char>, exp: u64) -> Seq<char>;

/// What signature-checked decoding (no time check) of `token` against
/// `secret` returns: the embedded {"sub", "exp"} claims, or nothing when
/// the token is not a well-formed HS256 token under `secret` carrying a
/// string subject and an integral expiry. A function of the two arguments
/// alone.
pub uninterp spec fn jwt_claims_of(secret: Seq<char>, token: Seq<char>) -> Option<(Seq<char>, u64)>;

/// The view of a decoded claim pair.
pub open spec fn claims_view(r: Option<(String, u64)>) -> Option<(Seq<char>, u64)> {
    match r {
        None => None,
        Some((sub, exp)) => Some((sub@, exp)),
    }
}

/// Relies on `jsonwebtoken::encode` with `Header::default()` (HS256) and a
/// symmetric key from `EncodingKey::from_secret`: the token is a function
/// of the secret and the claim set {"sub", "exp"} alone, and decoding it
/// with the same secret returns exactly those claims. Symmetric signing of
/// JSON-serializable claims cannot fail; `encode` errs only on asymmetric
/// key misuse.
#[verifier::external_body]
fn jwt_encode(secret: &str, sub: &str, exp: u64) -> (r: String)
    ensures
        r@ == jwt_token_of(secret@, sub@, exp),
        jwt_claims_of(secret@, r@) == Some((sub@, exp)),
{
    let mut claims = serde_json::Map::new();
    claims.insert("sub".to_string(), serde_json::Value::from(sub));
    claims.insert("exp".to_string(), serde_json::Value::from(exp));
    jsonwebtoken::encode(
        &jsonwebtoken::Header::default(),
        &serde_json::Value::Object(claims),
        &jsonwebtoken::EncodingKey::from_secret(secret.as_bytes()),
    )
    .expect("symmetric signing cannot fail")
}

/// Relies on `jsonwebtoken::decode` with signature validation on and every
/// time check off: whether `token` carries a valid HS256 signature under
/// `secret`, and which {"sub", "exp"} claims it embeds, depend on the two
/// arguments alone. Uniform `None` for anything malformed, mis-signed, or
/// lacking those claims.
#[verifier::external_body]
fn jwt_decode_raw(secret: &str, token: &str) -> (r: Option<(String, u64)>)
    ensures
        claims_view(r) == jwt_claims_of(secret@, token@),
{
    let mut validation = jsonwebtoken::Validation::new(jsonwebtoken::Algorithm::HS256);
    validation.validate_exp = false;
    validation.validate_aud = false;
    validation.required_spec_claims = std::collections::HashSet::new();
    let data = jsonwebtoken::decode::<serde_json::Value>(
        token,
        &jsonwebtoken::DecodingKey::from_secret(secret.as_bytes()),
        &validation,
    )
    .ok()?;
    let sub = data.claims.get("sub")?.as_str()?.to_string();
    let exp = data.claims.get("exp")?.as_u64()?;
    Some((sub, exp))
}

/// The fixed secret used when none is configured: a deliberate, visible
/// weak-default policy.
pub open spec fn default_secret() -> Seq<char> {
    "secretkey"@
}

/// What verification answers for `token` against `secret` when the clock
/// reads `now`: the embedded subject, if the token decodes under the
/// secret and its expiry plus leeway has not passed; nothing otherwise.
pub open spec fn spec_validate(secret: Seq<char>, token: Seq<char>, now: u64) -> Option<Seq<char>> {
    match jwt_claims_of(secret, token) {
        None => None,
        Some((sub, exp)) => if now <= exp + EXPIRY_LEEWAY_SECONDS {
            Some(sub)
        } else {
            None
        },
    }
}

/// Issues and verifies bearer credentials with one symmetric secret.
pub struct TokenAuthority {
    secret: String,
}

impl View for TokenAuthority {
    type V = Seq<char>;

    closed spec fn view(&self) -> Seq<char> {
        self.secret@
    }
}

impl TokenAuthority {
    /// An authority keyed by an explicitly injected secret.
    pub fn new(secret: String) -> (r: Self)
        ensures
            r@ == secret@,
    {
        TokenAuthority { secret }
    }

    /// The authority with the fixed fallback secret.
    pub fn with_default_secret() -> (r: Self)
        ensures
            r@ == default_secret(),
    {
        TokenAuthority { secret: String::from_str("secretkey") }
    }

    /// Mint a credential whose subject is `user_id` and whose expiry is one
    /// TTL past `now` (seconds since the epoch). A clock so late that the
    /// expiry would not fit is an unrecoverable environment fault and is
    /// excluded, not handled.
    pub fn create_token(&self, user_id: &str, now: u64) -> (r: String)
        requires
            now + TOKEN_TTL_SECONDS <= u64::MAX,
        ensures
            r@ == jwt_token_of(self@, user_id@, (now + TOKEN_TTL_SECONDS) as u64),
            jwt_claims_of(self@, r@) == Some((user_id@, (now + TOKEN_TTL_SECONDS) as u64)),
    {
        let exp = now + TOKEN_TTL_SECONDS;
        jwt_encode(self.secret.as_str(), user_id, exp)
    }

    /// Check a presented credential against this authority's secret at time
    /// `now`. Any failure — bad signature, malformed token, expiry passed —
    /// is the same uniform `None`; a caller can never tell the causes
    /// apart.
    pub fn validate_token(&self, token: &str, now: u64) -> (r: Option<String>)
        ensures
            r is Some <==> spec_validate(self@, token@, now) is Some,
            r matches Some(sub) ==> spec_validate(self@, token@, now) == Some(sub@),
    {
        match jwt_decode_raw(self.secret.as_str(), token) {
            None => None,
            Some((sub, exp)) => {
                let not_expired = now <= exp || now - exp <= EXPIRY_LEEWAY_SECONDS;
                if not_expired {
                    Some(sub)
                } else {
                    None
                }
            },
        }
    }
}

/// Round trip and expiry, in one law: a credential carrying claims
/// (`sub`, `exp`) under `secret` — in particular a freshly minted one —
/// verifies to exactly `sub` while the clock is within `exp` plus leeway,
/// and to nothing once past it.
pub proof fn lemma_validate_of_claims(
    secret: Seq<char>,
    token: Seq<char>,
    sub: Seq<char>,
    exp: u64,
    now: u64,
)
    requires
        jwt_claims_of(secret, token) == Some((sub, exp)),
    ensures
        now <= exp + EXPIRY_LEEWAY_SECONDS ==> spec_validate(secret, token, now) == Some(sub),
        now > exp + EXPIRY_LEEWAY_SECONDS ==> spec_validate(secret, token, now) is None,
{
}

/// Verification accepts nothing that does not carry this verifier's own
/// secret's valid signature: an accepted subject is always the subject of
/// the claims decoded under that very secret, with an expiry still ahead
/// of the clock (less leeway). Whether two distinct secrets can sign one
/// token to two claim sets is a property of the signature scheme, outside
/// what this library states.
pub proof fn lemma_accept_implies_own_signature(
    secret: Seq<char>,
    token: Seq<char>,
    now: u64,
    sub: Seq<char>,
)
    requires
        spec_validate(secret, token, now) == Some(sub),
    ensures
        jwt_claims_of(secret, token) is Some,
        jwt_claims_of(secret, token)->Some_0.0 == sub,
        now <= jwt_claims_of(secret, token)->Some_0.1 + EXPIRY_LEEWAY_SECONDS,
{
}

} // verus!
