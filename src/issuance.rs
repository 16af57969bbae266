//! Token issuance: the opaque token value, the clock, and the row and
//! response that an issuance produces.
use vstd::prelude::*;
use vstd::string::StringExecFns;
use rand::Rng;
use crate::models::{AccessToken, AccessTokenView};
use crate::store::{TokenRecord, TokenRow};
use crate::text::{copy_text, push_char};

verus! {

/// Characters in an issued token.
pub const TOKEN_LENGTH: usize = 128;

/// Days an issued token lives.
pub const TOKEN_LIFETIME_DAYS: i64 = 30;

pub const SECONDS_PER_DAY: i64 = 86_400;

/// Seconds an issued token lives.
pub const TOKEN_LIFETIME_SECONDS: i64 = TOKEN_LIFETIME_DAYS * SECONDS_PER_DAY;

/// The latest issuance time whose expiry still fits in an `i64`.
pub const LATEST_ISSUE_TIME: i64 = i64::MAX - TOKEN_LIFETIME_SECONDS;

pub open spec fn is_alphanumeric(c: char) -> bool {
    ('0' <= c && c <= '9') || ('A' <= c && c <= 'Z') || ('a' <= c && c <= 'z')
}

/// Relies on rand's `Alphanumeric` distribution sampled from `thread_rng`:
/// one of the ASCII letters and digits.
#[verifier::external_body]
fn random_alphanumeric() -> (c: char)
    ensures
        is_alphanumeric(c),
{
    char::from(rand::thread_rng().sample(rand::distributions::Alphanumeric))
}

/// A fresh random token of `TOKEN_LENGTH` ASCII letters and digits.
pub fn generate_token() -> (r: String)
    ensures
        r@.len() == TOKEN_LENGTH,
        forall|i: int| 0 <= i < r@.len() ==> is_alphanumeric(#[trigger] r@[i]),
{
    let mut r = String::new();
    let mut i: usize = 0;
    while i < TOKEN_LENGTH
        invariant
            i <= TOKEN_LENGTH,
            r@.len() == i,
            forall|j: int| 0 <= j < r@.len() ==> is_alphanumeric(#[trigger] r@[j]),
        decreases TOKEN_LENGTH - i,
    {
        let c = random_alphanumeric();
        push_char(&mut r, c);
        i = i + 1;
    }
    r
}

/// Relies on chrono's `Local::now` and `DateTime::timestamp`: seconds since
/// the epoch, computed from an `i32` day count as `(day - 719_163) * 86_400`
/// plus the seconds of the day.
#[verifier::external_body]
pub(crate) fn now_seconds() -> (t: i64)
    ensures
        (i32::MIN as int - 719_163) * 86_400 <= t <= (i32::MAX as int - 719_163) * 86_400 + 86_399,
{
    chrono::Local::now().timestamp()
}

/// The row stored for an issued token. Tokens are of type `bearer`, expire
/// `TOKEN_LIFETIME_SECONDS` after issuance, and carry the device `unknown`
/// when none is given.
pub open spec fn token_row(
    token: Seq<char>,
    scope: Option<Seq<char>>,
    user: Option<u128>,
    client: u128,
    issuer: Seq<char>,
    device: Option<Seq<char>>,
    now: int,
) -> TokenRow {
    TokenRow {
        access_token: token,
        expire_time: now + TOKEN_LIFETIME_SECONDS,
        user_id: user,
        client_id: client,
        scope,
        creation_time: now,
        token_type: "bearer"@,
        issuer,
        device: match device {
            Some(d) => d,
            None => "unknown"@,
        },
    }
}

/// The response for an issued token: its remaining lifetime, not its expiry.
pub open spec fn token_response(token: Seq<char>, scope: Option<Seq<char>>) -> AccessTokenView {
    AccessTokenView {
        access_token: token,
        token_type: "bearer"@,
        scope,
        expires_in: TOKEN_LIFETIME_SECONDS as int,
    }
}

/// The row to upsert and the response to send for a token issued at `now`.
pub fn insert_token(
    generated_token: &String,
    scope: &Option<String>,
    uid: Option<u128>,
    cid: u128,
    issuer: &String,
    device: &Option<String>,
    now: i64,
) -> (r: (TokenRecord, AccessToken))
    requires
        now <= LATEST_ISSUE_TIME,
    ensures
        r.0@ == token_row(generated_token@, scope.deep_view(), uid, cid, issuer@, device.deep_view(), now as int),
        r.1@ == token_response(generated_token@, scope.deep_view()),
{
    let device_str = match device {
        Some(d) => d.clone(),
        None => String::from_str("unknown"),
    };
    let record = TokenRecord {
        access_token: generated_token.clone(),
        expire_time: now + TOKEN_LIFETIME_SECONDS,
        user_id: uid,
        client_id: cid,
        scope: copy_text(scope),
        creation_time: now,
        token_type: String::from_str("bearer"),
        issuer: issuer.clone(),
        device: device_str,
    };
    let response = AccessToken {
        access_token: generated_token.clone(),
        token_type: String::from_str("bearer"),
        scope: copy_text(scope),
        expires_in: TOKEN_LIFETIME_SECONDS,
    };
    (record, response)
}

} // verus!
