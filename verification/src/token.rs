//! Tokens: what a token claims, for how long it holds, and its signed form.

use crate::decimal::{i32_to_string, signed_decimal};
use crate::types::account::AccountId;
use crate::types::claims::{Claims, ClaimsView};
use crate::views::option_view;
use vstd::prelude::*;

verus! {

/// Number of seconds for which a token holds once it is issued.
pub const TOKEN_LIFETIME: i64 = 3600;

/// Bound below which every reading of the clock lies, in seconds since the
/// epoch: the first instant of the day whose number no longer fits in 32 bits.
pub const CLOCK_END: i64 = 185_480_451_504_000;

/// The token that `jsonwebtoken::encode` makes of the three claims under the
/// default header and a secret.
pub uninterp spec fn jwt_encoding(
    account_id: Seq<char>,
    exp: nat,
    nbf: nat,
    secret: Seq<u8>,
) -> Seq<char>;

/// Reads the clock: `chrono::Utc::now`, as whole seconds since the epoch.
///
/// The reading is the time that has passed since the epoch, so it is not
/// negative, and the clock's library gives no instant whose day, counted from
/// the first of the common era, does not fit in 32 bits: hence [`CLOCK_END`].
/// The call does not return where the system's clock stands before the epoch.
#[verifier::external_body]
fn unix_time() -> (now: i64)
    ensures
        0 <= now < CLOCK_END,
{
    chrono::Utc::now().timestamp()
}

/// Signs claims: `jsonwebtoken::encode` with `Header::default()`, the claims as a
/// JSON object of the fields `account_id`, `exp` and `nbf`, and the key that
/// `EncodingKey::from_secret` makes of `secret`.
///
/// The token depends on the claims and the secret alone and goes by the name
/// [`jwt_encoding`]. The signing library fails where key and algorithm are of
/// two families, where header or claims cannot be written as JSON, and where a
/// key cannot be read; a secret is of the default algorithm's family and is
/// taken as it is, and a text and two numbers can be written: a token is
/// returned.
#[verifier::external_body]
fn encode(claims: &Claims, secret: &[u8]) -> (token: Option<String>)
    ensures
        option_view(token) == Some(
            jwt_encoding(claims.account_id@, claims.exp as nat, claims.nbf as nat, secret@),
        ),
{
    let mut payload = serde_json::Map::new();
    payload.insert("account_id".to_string(), serde_json::Value::from(claims.account_id.as_str()));
    payload.insert("exp".to_string(), serde_json::Value::from(claims.exp));
    payload.insert("nbf".to_string(), serde_json::Value::from(claims.nbf));
    let key = jsonwebtoken::EncodingKey::from_secret(secret);
    jsonwebtoken::encode(&jsonwebtoken::Header::default(), &payload, &key).ok()
}

/// The claims of a token issued to an account at the instant `now`: the
/// account's identifier in decimal notation, valid from `now` and for
/// [`TOKEN_LIFETIME`] seconds. Both ends are kept in the width of the machine's
/// addresses; an instant that does not fit there is cut to that width.
pub open spec fn claims_at(account_id: int, now: int) -> ClaimsView {
    ClaimsView {
        account_id: signed_decimal(account_id),
        exp: ((now + TOKEN_LIFETIME) as usize) as nat,
        nbf: (now as usize) as nat,
    }
}

/// The signed token issued to an account at the instant `now` under `secret`.
pub open spec fn token_at(account_id: int, now: int, secret: Seq<u8>) -> Seq<char> {
    let claims = claims_at(account_id, now);
    jwt_encoding(claims.account_id, claims.exp, claims.nbf, secret)
}

/// A token holds from the instant at which it is issued, not before, and for
/// one hour, at every instant from the epoch on whose hour ends within the
/// width of the machine's addresses.
pub proof fn lemma_token_lifetime(account_id: int, now: int)
    requires
        0 <= now,
        now + TOKEN_LIFETIME <= usize::MAX,
    ensures
        claims_at(account_id, now).exp - claims_at(account_id, now).nbf == 3600,
        claims_at(account_id, now).nbf == now,
        claims_at(account_id, now).nbf <= now < claims_at(account_id, now).exp,
{
}

/// Makes the claims of a token issued to `account_id` at the instant `now`.
pub fn token_claims(account_id: &AccountId, now: i64) -> (claims: Claims)
    requires
        now + TOKEN_LIFETIME <= i64::MAX,
    ensures
        claims@ == claims_at(account_id@, now as int),
{
    let expiration: i64 = now + TOKEN_LIFETIME;
    Claims {
        account_id: i32_to_string(account_id.0),
        exp: #[verifier::truncate] (expiration as usize),
        nbf: #[verifier::truncate] (now as usize),
    }
}

/// Issues a token to `account_id` at the instant `now`, signed with `secret`.
pub fn issue_token_at(account_id: &AccountId, now: i64, secret: &[u8]) -> (token: String)
    requires
        now + TOKEN_LIFETIME <= i64::MAX,
    ensures
        token@ == token_at(account_id@, now as int, secret@),
{
    let claims = token_claims(account_id, now);
    encode(&claims, secret).expect("Failed to create JWT")
}

/// Issues a token to `account_id` at the present instant, signed with `secret`.
pub fn issue_token(account_id: &AccountId, secret: &[u8]) -> (token: String)
    ensures
        exists|now: i64|
            {
                &&& 0 <= now < CLOCK_END
                &&& token@ == #[trigger] token_at(account_id@, now as int, secret@)
                &&& now + TOKEN_LIFETIME <= usize::MAX ==> {
                    let claims = claims_at(account_id@, now as int);
                    claims.nbf == now && claims.exp == now + TOKEN_LIFETIME
                }
            },
{
    let now: i64 = unix_time();
    let token = issue_token_at(account_id, now, secret);
    proof {
        if now + TOKEN_LIFETIME <= usize::MAX {
            lemma_token_lifetime(account_id@, now as int);
        }
    }
    token
}

} // verus!
