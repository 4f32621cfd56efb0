//! Session tokens: how one is issued, and when one authorizes a user.

use base64::engine::general_purpose::STANDARD;
use base64::Engine;
use rand::Rng;
use vstd::prelude::*;

use crate::model::{Token, TokenView, User, UserView};

verus! {

/// How long a token lives: thirty days, in milliseconds.
pub const TOKEN_LIFETIME_MILLIS: i64 = 2_592_000_000;

/// The standard base64 text, with padding, of a sequence of bytes: what
/// `base64`'s `STANDARD` engine encodes them to.
pub uninterp spec fn base64_standard(bytes: Seq<u8>) -> Seq<char>;

/// The instant at which a token issued at `issued_at` expires: thirty days
/// later, or the last instant that an `i64` can hold where that is earlier.
pub open spec fn expiration_of(issued_at: i64) -> i64 {
    if issued_at + TOKEN_LIFETIME_MILLIS <= i64::MAX {
        (issued_at + TOKEN_LIFETIME_MILLIS) as i64
    } else {
        i64::MAX
    }
}

/// The token made from 32 bytes at the instant `issued_at`.
pub open spec fn token_of(bytes: Seq<u8>, issued_at: i64) -> TokenView {
    TokenView { token: base64_standard(bytes), expiration: expiration_of(issued_at) }
}

/// `token` is one that [`generate_token`] can have issued: made from some 32
/// bytes at some instant.
pub open spec fn issued(token: TokenView) -> bool {
    exists|bytes: Seq<u8>, issued_at: i64|
        bytes.len() == 32 && token == #[trigger] token_of(bytes, issued_at)
}

/// `presented` is the string of one of the user's tokens. Expirations play
/// no part.
pub open spec fn authorizes(user: UserView, presented: Seq<char>) -> bool {
    exists|i: int| 0 <= i < user.tokens.len() && (#[trigger] user.tokens[i]).token == presented
}

/// 32 bytes from `rand::thread_rng`, the thread's cryptographically secure
/// generator. Nothing is claimed of the bytes. The generator panics if the
/// system's random source cannot seed it.
#[verifier::external_body]
fn random_bytes() -> (bytes: [u8; 32]) {
    rand::thread_rng().gen::<[u8; 32]>()
}

/// `Engine::encode` of `base64`'s `STANDARD` engine. Trusted: the string is
/// the standard base64 text of the bytes.
#[verifier::external_body]
fn base64_encode(bytes: &[u8; 32]) -> (text: String)
    ensures
        text@ == base64_standard(bytes@),
{
    STANDARD.encode(bytes)
}

/// The current instant as `bson::DateTime::now` reads it off the system
/// clock, in milliseconds since the Unix epoch. Nothing is claimed of it.
#[verifier::external_body]
fn now_millis() -> (millis: i64) {
    bson::DateTime::now().timestamp_millis()
}

impl Token {
    /// The token with the string `token` that was issued at `issued_at`.
    pub fn new(token: String, issued_at: i64) -> (made: Token)
        ensures
            made@ == (TokenView { token: token@, expiration: expiration_of(issued_at) }),
    {
        let expiration: i64 = if issued_at > i64::MAX - TOKEN_LIFETIME_MILLIS {
            i64::MAX
        } else {
            issued_at + TOKEN_LIFETIME_MILLIS
        };
        Token { token, expiration }
    }

    /// The token that encodes `bytes`, issued at `issued_at`.
    pub fn from_bytes(bytes: &[u8; 32], issued_at: i64) -> (made: Token)
        ensures
            made@ == token_of(bytes@, issued_at),
    {
        Token::new(base64_encode(bytes), issued_at)
    }
}

/// Issues a token: 32 fresh random bytes in base64, expiring thirty days
/// from now. No two calls need agree.
pub fn generate_token() -> (token: Token)
    ensures
        issued(token@),
{
    let bytes = random_bytes();
    let now = now_millis();
    let token = Token::from_bytes(&bytes, now);
    assert(token@ == token_of(bytes@, now));
    token
}

/// Tells whether `presented` is the string of one of `user`'s tokens.
pub fn authorize(user: &User, presented: &str) -> (granted: bool)
    ensures
        granted == authorizes(user@, presented@),
{
    let wanted = presented.to_owned();
    let mut i: usize = 0;
    while i < user.tokens.len()
        invariant
            i <= user.tokens.len(),
            wanted@ == presented@,
            forall|k: int| 0 <= k < i ==> (#[trigger] user@.tokens[k]).token != presented@,
        decreases user.tokens.len() - i,
    {
        if user.tokens[i].token == wanted {
            assert(user@.tokens[i as int].token == presented@);
            return true;
        }
        i += 1;
    }
    false
}

} // verus!
