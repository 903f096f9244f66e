//! Session tokens and the cookie that carries them.
//!
//! A session is a random token that the store maps to a user. The token
//! travels in the cookie `session_id`, which is secure, http-only and
//! strict-same-site and which the client drops after seven days. The store
//! itself never expires a session.

use vstd::prelude::*;
use axum_extra::extract::cookie::Cookie;
use axum_extra::extract::cookie::SameSite;
use rand::distr::Alphanumeric;
use rand::distr::SampleString;
use time::OffsetDateTime;

verus! {

/// The name of the cookie that carries the session token.
pub const SESSION_COOKIE_NAME: &'static str = "session_id";

/// The number of characters of a session token.
pub const SESSION_TOKEN_LEN: usize = 16;

/// The number of seconds after which the client drops the session cookie.
pub const SESSION_COOKIE_TTL_SECS: i64 = 604800;

/// The earliest instant, in seconds since the Unix epoch, that a cookie's
/// expiry can hold: the first second of the year -9999.
pub const MIN_COOKIE_INSTANT: i64 = -377705116800;

/// The latest instant that a cookie's expiry can hold: the last second of
/// the year 9999.
pub const MAX_COOKIE_INSTANT: i64 = 253402300799;

/// The value of `Set-Cookie` that makes the client drop its session cookie.
pub open spec fn expired_cookie() -> Seq<char> {
    "session_id=; HttpOnly; SameSite=Strict; Secure; Expires=1 Jan 1970 00:00:00 GMT"@
}

/// The value of `Set-Cookie` that makes the client drop its session cookie.
pub fn expired_empty_cookie() -> (cookie: &'static str)
    ensures
        cookie@ == expired_cookie(),
{
    "session_id=; HttpOnly; SameSite=Strict; Secure; Expires=1 Jan 1970 00:00:00 GMT"
}

/// An ASCII letter or digit.
pub open spec fn is_alphanumeric(c: char) -> bool {
    ('a' <= c && c <= 'z') || ('A' <= c && c <= 'Z') || ('0' <= c && c <= '9')
}

/// A string of exactly `len` ASCII letters and digits.
pub open spec fn is_alphanumeric_token(text: Seq<char>, len: nat) -> bool {
    text.len() == len && forall|i: int| 0 <= i < text.len() ==> is_alphanumeric(#[trigger] text[i])
}

/// A well-formed session token.
pub open spec fn is_session_token(text: Seq<char>) -> bool {
    is_alphanumeric_token(text, SESSION_TOKEN_LEN as nat)
}

/// The date of a cookie's `Expires` attribute for an instant given in seconds
/// since the Unix epoch, as the cookie formatter writes it.
pub uninterp spec fn cookie_date(instant: int) -> Seq<char>;

/// The session cookie for `token` up to the date of its expiry.
pub open spec fn session_cookie_head(token: Seq<char>) -> Seq<char> {
    "session_id="@ + token + "; HttpOnly; SameSite=Strict; Secure; Expires="@
}

/// The session cookie for `token` that expires at `expires`.
pub open spec fn session_cookie_text(token: Seq<char>, expires: int) -> Seq<char> {
    session_cookie_head(token) + cookie_date(expires)
}

/// Whether a session cookie issued at `now` can state its expiry.
pub open spec fn can_issue_at(now: int) -> bool {
    MIN_COOKIE_INSTANT <= now <= MAX_COOKIE_INSTANT - SESSION_COOKIE_TTL_SECS
}

/// Some well-formed session token: sixteen times the letter `a`.
pub open spec fn some_session_token() -> Seq<char> {
    Seq::new(SESSION_TOKEN_LEN as nat, |i: int| 'a')
}

/// There are well-formed session tokens.
pub proof fn lemma_session_tokens_exist()
    ensures
        is_session_token(some_session_token()),
{
}

/// `Alphanumeric.sample_string` of `rand` on the thread's generator: `len`
/// characters, each drawn from the ASCII letters and digits. Which ones is
/// left open.
#[verifier::external_body]
pub(crate) fn random_alphanumeric(len: usize) -> (text: String)
    ensures
        is_alphanumeric_token(text@, len as nat),
{
    Alphanumeric.sample_string(&mut rand::rng(), len)
}

/// `OffsetDateTime::now_utc` of `time`, as seconds since the Unix epoch.
/// Nothing is claimed of the clock.
#[verifier::external_body]
pub(crate) fn unix_now() -> (now: i64) {
    OffsetDateTime::now_utc().unix_timestamp()
}

/// The `Display` form of a cookie built by `Cookie::build` with the name
/// `session_id`, the value `token`, the attributes `Secure`, `HttpOnly` and
/// `SameSite=Strict`, and the expiry `expires`: name and value joined by `=`,
/// then the attributes in the formatter's order, then the expiry as a date.
/// `expires` must lie in the years that `OffsetDateTime` can hold.
#[verifier::external_body]
fn format_session_cookie(token: &str, expires: i64) -> (text: String)
    requires
        MIN_COOKIE_INSTANT <= expires <= MAX_COOKIE_INSTANT,
    ensures
        text@ == session_cookie_head(token@) + cookie_date(expires as int),
{
    let when = OffsetDateTime::from_unix_timestamp(expires).unwrap();
    Cookie::build((SESSION_COOKIE_NAME, token))
        .secure(true)
        .http_only(true)
        .same_site(SameSite::Strict)
        .expires(when)
        .to_string()
}

/// A fresh session token.
pub fn new_session_token() -> (token: String)
    ensures
        is_session_token(token@),
{
    random_alphanumeric(SESSION_TOKEN_LEN)
}

/// The value of `Set-Cookie` that hands `token` to the client at `now`, to be
/// dropped seven days later; `None` where that day is beyond what a cookie
/// can state.
pub fn session_cookie(token: &str, now: i64) -> (cookie: Option<String>)
    ensures
        can_issue_at(now as int) ==> (cookie matches Some(text) && text@ == session_cookie_text(
            token@,
            now + SESSION_COOKIE_TTL_SECS,
        )),
        !can_issue_at(now as int) ==> cookie is None,
{
    if now < MIN_COOKIE_INSTANT || now > MAX_COOKIE_INSTANT - SESSION_COOKIE_TTL_SECS {
        return None;
    }
    Some(format_session_cookie(token, now + SESSION_COOKIE_TTL_SECS))
}

} // verus!
