//! The session cookies of a client: how the credentials are written into
//! cookies and read back from them.
//!
//! A browser hands the cookies of a document out as one text,
//! `key=value` pieces separated by `;`, and takes one assignment at a time.
//! [`Cookies`] holds such a text; reading a document and writing to it is
//! left to the caller.

use vstd::prelude::*;
use vstd::string::StringExecFns;

verus! {

/// The name of a user and one of the user's tokens, as a client keeps them.
#[derive(Debug)]
pub struct Credentials {
    pub name: String,
    pub token: String,
}

pub struct CredentialsView {
    pub name: Seq<char>,
    pub token: Seq<char>,
}

impl View for Credentials {
    type V = CredentialsView;

    open spec fn view(&self) -> CredentialsView {
        CredentialsView { name: self.name@, token: self.token@ }
    }
}

/// What a scan of a text stops at.
#[derive(Clone, Copy, Debug, PartialEq, Eq, Structural)]
pub enum Stop {
    /// The `;` that ends a piece.
    Semicolon,
    /// The `=` that ends a key.
    Equals,
    /// A character that is no whitespace.
    Visible,
}

/// Whether `c` has the Unicode property `White_Space`: what
/// `char::is_whitespace` answers.
pub uninterp spec fn is_whitespace(c: char) -> bool;

/// `char::is_whitespace`. Trusted: the answer is [`is_whitespace`] of the
/// character.
#[verifier::external_body]
fn char_is_whitespace(c: char) -> (white: bool)
    ensures
        white == is_whitespace(c),
{
    c.is_whitespace()
}

/// The RFC 3339 text of an instant given in milliseconds since the Unix
/// epoch, in UTC: what `bson::DateTime::try_to_rfc3339_string` returns for
/// it. `None` where the instant has no such text.
pub uninterp spec fn rfc3339_text(millis: i64) -> Option<Seq<char>>;

/// `bson::datetime::Error`, the error of the formatting, carried through
/// unread.
#[verifier::external_type_specification]
#[verifier::external_body]
pub struct ExDateTimeError(bson::datetime::Error);

/// `bson::DateTime::from_millis`, then `try_to_rfc3339_string`. Trusted: the
/// result is [`rfc3339_text`] of the instant, an error standing for `None`.
#[verifier::external_body]
fn rfc3339(millis: i64) -> (text: Result<String, bson::datetime::Error>)
    ensures
        match text {
            Ok(text) => rfc3339_text(millis) == Some(text@),
            Err(_) => rfc3339_text(millis) is None,
        },
{
    bson::DateTime::from_millis(millis).try_to_rfc3339_string()
}

/// A scan for `stop` ends at `c`.
pub open spec fn stops(stop: Stop, c: char) -> bool {
    match stop {
        Stop::Semicolon => c == ';',
        Stop::Equals => c == '=',
        Stop::Visible => !is_whitespace(c),
    }
}

/// Where a scan of `text` for `stop` ends: at the first character that stops
/// it, or behind the last character.
pub open spec fn first_stop(text: Seq<char>, stop: Stop) -> int
    decreases text.len(),
{
    if text.len() == 0 || stops(stop, text[0]) {
        0
    } else {
        1 + first_stop(text.drop_first(), stop)
    }
}

/// The first piece of `text`: what stands before its first `;`.
pub open spec fn first_piece(text: Seq<char>) -> Seq<char> {
    text.take(first_stop(text, Stop::Semicolon))
}

/// `piece` without the whitespace that it begins with.
pub open spec fn trim_start(piece: Seq<char>) -> Seq<char> {
    piece.skip(first_stop(piece, Stop::Visible))
}

/// `piece` is the cookie `key`: behind its leading whitespace stand `key`
/// and `=`.
pub open spec fn names(piece: Seq<char>, key: Seq<char>) -> bool {
    (key + seq!['=']).is_prefix_of(trim_start(piece))
}

/// What stands behind the first `=` of `piece`.
pub open spec fn after_equals(piece: Seq<char>) -> Option<Seq<char>> {
    let at = first_stop(piece, Stop::Equals);
    if at < piece.len() {
        Some(piece.skip(at + 1))
    } else {
        None
    }
}

/// The value of the cookie `key` in `text`: what stands behind the first
/// `=` of the first piece that is the cookie `key`.
pub open spec fn value_in(text: Seq<char>, key: Seq<char>) -> Option<Seq<char>>
    decreases text.len(),
{
    let piece = first_piece(text);
    if names(piece, key) {
        after_equals(piece)
    } else if piece.len() < text.len() {
        value_in(text.skip(piece.len() as int + 1), key)
    } else {
        None
    }
}

/// The credentials in `text`: the values of the cookies `name` and `token`,
/// if both are there.
pub open spec fn credentials_in(text: Seq<char>) -> Option<CredentialsView> {
    match (value_in(text, "name"@), value_in(text, "token"@)) {
        (Some(name), Some(token)) => Some(CredentialsView { name, token }),
        _ => None,
    }
}

/// The assignment that sets the cookie `key` to `value` for every path,
/// until the instant whose text is `expires`.
pub open spec fn assignment(key: Seq<char>, value: Seq<char>, expires: Seq<char>) -> Seq<char> {
    key + "="@ + value + ";expires="@ + expires + ";path=/"@
}

/// A scan ends at `at` where nothing before `at` stops it, and the
/// character at `at` does or the text ends there.
pub proof fn lemma_first_stop(text: Seq<char>, stop: Stop, at: int)
    requires
        0 <= at <= text.len(),
        forall|k: int| 0 <= k < at ==> !stops(stop, #[trigger] text[k]),
        at < text.len() ==> stops(stop, text[at]),
    ensures
        first_stop(text, stop) == at,
    decreases at,
{
    if at > 0 {
        let rest = text.drop_first();
        assert forall|k: int| 0 <= k < at - 1 implies !stops(stop, #[trigger] rest[k]) by {
            assert(rest[k] == text[k + 1]);
        }
        lemma_first_stop(rest, stop, at - 1);
    }
}

/// The characters of `text`, one by one.
fn chars_of(text: &str) -> (chars: Vec<char>)
    ensures
        chars@ == text@,
{
    let mut chars: Vec<char> = Vec::new();
    for c in it: text.chars()
        invariant
            it.seq() == text@,
            chars@ == it.seq().take(it.index() as int),
    {
        chars.push(c);
        assert(it.seq().take(it.index() + 1) =~= it.seq().take(it.index() as int).push(c));
    }
    assert(chars@ =~= text@);
    chars
}

/// Tells whether a scan for `stop` ends at `c`.
fn is_stop(stop: Stop, c: char) -> (ends: bool)
    ensures
        ends == stops(stop, c),
{
    match stop {
        Stop::Semicolon => c == ';',
        Stop::Equals => c == '=',
        Stop::Visible => !char_is_whitespace(c),
    }
}

/// Scans `text` from `from` up to `to` for `stop`.
fn scan(text: &Vec<char>, from: usize, to: usize, stop: Stop) -> (at: usize)
    requires
        from <= to <= text.len(),
    ensures
        from <= at <= to,
        at - from == first_stop(text@.subrange(from as int, to as int), stop),
{
    let ghost part = text@.subrange(from as int, to as int);
    let mut at: usize = from;
    while at < to && !is_stop(stop, text[at])
        invariant
            from <= at <= to <= text.len(),
            part == text@.subrange(from as int, to as int),
            forall|k: int| 0 <= k < at - from ==> !stops(stop, #[trigger] part[k]),
        decreases to - at,
    {
        assert(part[at - from] == text[at as int]);
        at += 1;
    }
    proof {
        if at < to {
            assert(part[at - from] == text[at as int]);
        }
        lemma_first_stop(part, stop, at - from);
    }
    at
}

/// Tells whether `text` holds `key` and then `=` from `from` on, before
/// `to`.
fn holds_key(text: &Vec<char>, from: usize, to: usize, key: &Vec<char>) -> (held: bool)
    requires
        from <= to <= text.len(),
    ensures
        held == (key@ + seq!['=']).is_prefix_of(text@.subrange(from as int, to as int)),
{
    let ghost part = text@.subrange(from as int, to as int);
    let ghost wanted = key@ + seq!['='];
    if to - from <= key.len() {
        return false;
    }
    let mut i: usize = 0;
    while i < key.len()
        invariant
            i <= key.len() < to - from,
            from <= to <= text.len(),
            part == text@.subrange(from as int, to as int),
            wanted == key@ + seq!['='],
            forall|k: int| 0 <= k < i ==> #[trigger] part[k] == wanted[k],
        decreases key.len() - i,
    {
        if text[from + i] != key[i] {
            assert(part[i as int] != wanted[i as int]);
            assert(part.take(wanted.len() as int)[i as int] != wanted[i as int]);
            return false;
        }
        i += 1;
    }
    let held = text[from + key.len()] == '=';
    proof {
        let last = key.len() as int;
        if held {
            assert(part.take(wanted.len() as int) =~= wanted);
        } else {
            assert(part.take(wanted.len() as int)[last] != wanted[last]);
        }
    }
    held
}

/// The cookies of a document, as the one text in which a browser hands
/// them out.
pub struct Cookies(pub String);

impl View for Cookies {
    type V = Seq<char>;

    open spec fn view(&self) -> Seq<char> {
        self.0@
    }
}

impl Cookies {
    /// The cookies that `text` holds.
    pub fn new(text: String) -> (cookies: Cookies)
        ensures
            cookies@ == text@,
    {
        Cookies(text)
    }

    /// The value of the cookie `key`, or an error where there is none.
    pub fn get(&self, key: &str) -> (value: Result<String, ()>)
        ensures
            match value {
                Ok(value) => value_in(self@, key@) == Some(value@),
                Err(_) => value_in(self@, key@) is None,
            },
    {
        let text = chars_of(self.0.as_str());
        let wanted = chars_of(key);
        let mut start: usize = 0;
        proof {
            assert(text@.skip(0) =~= text@);
        }
        loop
            invariant
                start <= text.len(),
                text@ == self@,
                wanted@ == key@,
                value_in(self@, key@) == value_in(text@.skip(start as int), key@),
            decreases text.len() - start,
        {
            let ghost rest = text@.skip(start as int);
            let end = scan(&text, start, text.len(), Stop::Semicolon);
            let shown = scan(&text, start, end, Stop::Visible);
            let ghost piece = text@.subrange(start as int, end as int);
            proof {
                assert(rest =~= text@.subrange(start as int, text.len() as int));
                assert(piece =~= first_piece(rest));
                assert(trim_start(piece) =~= text@.subrange(shown as int, end as int));
            }
            if holds_key(&text, shown, end, &wanted) {
                let equals = scan(&text, start, end, Stop::Equals);
                if equals < end {
                    let value = self.0.as_str().substring_char(equals + 1, end);
                    proof {
                        assert(value@ =~= piece.skip(equals - start + 1));
                    }
                    return Ok(value.to_owned());
                } else {
                    return Err(());
                }
            }
            if end >= text.len() {
                return Err(());
            }
            proof {
                assert(rest.skip(piece.len() as int + 1) =~= text@.skip(end + 1));
            }
            start = end + 1;
        }
    }

    /// The credentials that the cookies `name` and `token` hold, or an error
    /// where one of the two is missing.
    pub fn credentials(&self) -> (credentials: Result<Credentials, ()>)
        ensures
            match credentials {
                Ok(credentials) => credentials_in(self@) == Some(credentials@),
                Err(_) => credentials_in(self@) is None,
            },
    {
        let name = match self.get("name") {
            Ok(name) => name,
            Err(_) => return Err(()),
        };
        let token = match self.get("token") {
            Ok(token) => token,
            Err(_) => return Err(()),
        };
        Ok(Credentials { name, token })
    }

    /// The assignment that sets the cookie `key` to `value` until the
    /// instant whose RFC 3339 text is `expires`.
    pub fn assign(key: &str, value: &str, expires: &str) -> (text: String)
        ensures
            text@ == assignment(key@, value@, expires@),
    {
        let mut text = key.to_owned();
        text.append("=");
        text.append(value);
        text.append(";expires=");
        text.append(expires);
        text.append(";path=/");
        text
    }

    /// The assignment that sets the cookie `key` to `value` until
    /// `expiration`, an instant in milliseconds since the Unix epoch; an
    /// error where that instant has no RFC 3339 text.
    pub fn set(key: &str, value: &str, expiration: i64) -> (text: Result<String, ()>)
        ensures
            match text {
                Ok(text) => rfc3339_text(expiration) matches Some(expires) && text@ == assignment(
                    key@,
                    value@,
                    expires,
                ),
                Err(_) => rfc3339_text(expiration) is None,
            },
    {
        match rfc3339(expiration) {
            Ok(expires) => Ok(Cookies::assign(key, value, expires.as_str())),
            Err(_) => Err(()),
        }
    }

    /// The two assignments that keep the credentials of a user until
    /// `expiration`: the cookie `name`, then the cookie `token`.
    pub fn set_credentials(name: &str, token: &str, expiration: i64) -> (texts: Result<
        (String, String),
        (),
    >)
        ensures
            match texts {
                Ok((first, second)) => rfc3339_text(expiration) matches Some(expires) && first@
                    == assignment("name"@, name@, expires) && second@ == assignment(
                    "token"@,
                    token@,
                    expires,
                ),
                Err(_) => rfc3339_text(expiration) is None,
            },
    {
        let first = match Cookies::set("name", name, expiration) {
            Ok(text) => text,
            Err(_) => return Err(()),
        };
        let second = match Cookies::set("token", token, expiration) {
            Ok(text) => text,
            Err(_) => return Err(()),
        };
        Ok((first, second))
    }
}

} // verus!
