//! The session cookie: how it is written into a response and how it is
//! found in a request.

use vstd::prelude::*;
use crate::auth_dto::{opt_text, COOKIE_NAME};
use headers::Header;

verus! {

/// Attributes appended to the session cookie.
pub const COOKIE_ATTRIBUTES: &'static str = "; SameSite=Lax; Path=/";

/// The `Set-Cookie` text that hands `token` to the browser.
pub open spec fn cookie_text(token: Seq<char>) -> Seq<char> {
    COOKIE_NAME@ + "="@ + token + COOKIE_ATTRIBUTES@
}

/// A character that may appear in an HTTP header value: anything but a
/// control character, the horizontal tab excepted.
pub open spec fn header_char(c: char) -> bool {
    (c as u32 >= 32 && c as u32 != 127) || c as u32 == 9
}

/// Text that can be sent as an HTTP header value.
pub open spec fn header_text(s: Seq<char>) -> bool {
    forall|i: int| 0 <= i < s.len() ==> header_char(#[trigger] s[i])
}

/// The value that the `headers` crate finds for cookie `name` in the text of
/// a `Cookie` request header, if it finds one.
pub uninterp spec fn cookie_lookup(header: Seq<char>, name: Seq<char>) -> Option<Seq<char>>;

/// Calls `http::HeaderValue::from_str` and reports whether it accepted the
/// text. That function rejects a text exactly when one of its bytes is a
/// control character other than the tab; every byte of a character beyond
/// ASCII is accepted, so the same holds character by character.
#[verifier::external_body]
fn is_header_value(text: &str) -> (ok: bool)
    ensures
        ok == header_text(text@),
{
    http::HeaderValue::from_str(text).is_ok()
}

/// Decodes the text as a `headers::Cookie` and calls `Cookie::get` with
/// `name`. A text that is no header value, or that does not decode, gives
/// `None`. The answer is only given a name, `cookie_lookup`.
#[verifier::external_body]
fn lookup_cookie(header: &str, name: &str) -> (value: Option<String>)
    ensures
        opt_text(value) == cookie_lookup(header@, name@),
{
    let raw = http::HeaderValue::from_str(header).ok()?;
    let jar = headers::Cookie::decode(&mut std::iter::once(&raw)).ok()?;
    jar.get(name).map(|v| v.to_string())
}

/// The `Set-Cookie` text that hands `token` to the browser, or `None` when
/// the token holds a character that no header may carry.
pub fn session_cookie(token: &str) -> (cookie: Option<String>)
    ensures
        cookie.is_some() == header_text(cookie_text(token@)),
        cookie.is_some() ==> cookie.unwrap()@ == cookie_text(token@),
{
    let mut text = String::from_str(COOKIE_NAME);
    text.append("=");
    text.append(token);
    text.append(COOKIE_ATTRIBUTES);
    if is_header_value(text.as_str()) {
        Some(text)
    } else {
        None
    }
}

/// What parts two `Cookie` headers of one request when they are read as one.
pub const COOKIE_SEPARATOR: &'static str = "; ";

/// The mathematical content of a list of optional strings.
pub open spec fn opt_texts(values: Seq<Option<String>>) -> Seq<Option<Seq<char>>> {
    values.map_values(|v: Option<String>| opt_text(v))
}

/// The `Cookie` headers of one request read as one header: the values in
/// order, parted by `"; "`. A value that is no text is passed over, and a
/// request without a value that is text has no header.
pub open spec fn joined_cookies(values: Seq<Option<Seq<char>>>) -> Option<Seq<char>>
    decreases values.len(),
{
    if values.len() == 0 {
        None
    } else {
        match (joined_cookies(values.drop_last()), values.last()) {
            (before, None) => before,
            (None, Some(value)) => Some(value),
            (Some(before), Some(value)) => Some(before + COOKIE_SEPARATOR@ + value),
        }
    }
}

/// Reads the `Cookie` headers of one request as one header. Each entry is
/// one header's value, or `None` for a value that is no text.
pub fn join_cookie_headers(values: &Vec<Option<String>>) -> (header: Option<String>)
    ensures
        opt_text(header) == joined_cookies(opt_texts(values@)),
{
    let ghost all = opt_texts(values@);
    let mut header: Option<String> = None;
    let mut i: usize = 0;
    proof {
        assert(all.subrange(0, 0) =~= Seq::<Option<Seq<char>>>::empty());
    }
    while i < values.len()
        invariant
            i <= values.len(),
            all == opt_texts(values@),
            opt_text(header) == joined_cookies(all.subrange(0, i as int)),
        decreases values.len() - i,
    {
        proof {
            let upto = all.subrange(0, i + 1);
            assert(upto.drop_last() =~= all.subrange(0, i as int));
            assert(upto.last() == opt_text(values@[i as int]));
        }
        match &values[i] {
            None => {},
            Some(value) => {
                header = match header {
                    None => Some(value.clone()),
                    Some(before) => {
                        let mut joined = before;
                        joined.append(COOKIE_SEPARATOR);
                        joined.append(value.as_str());
                        Some(joined)
                    },
                };
            },
        }
        i = i + 1;
    }
    proof {
        assert(all.subrange(0, values.len() as int) =~= all);
    }
    header
}

/// The session token that a request carries: the value of the session
/// cookie in the request's `Cookie` header, if there is a header and it
/// holds that cookie.
pub open spec fn token_in(cookie_header: Option<Seq<char>>) -> Option<Seq<char>> {
    match cookie_header {
        Some(header) => cookie_lookup(header, COOKIE_NAME@),
        None => None,
    }
}

/// Mathematical content of an optional string slice.
pub open spec fn opt_str_text(s: Option<&str>) -> Option<Seq<char>> {
    match s {
        Some(v) => Some(v@),
        None => None,
    }
}

/// Finds the session token in the request's `Cookie` header.
pub fn session_token(cookie_header: Option<&str>) -> (token: Option<String>)
    ensures
        opt_text(token) == token_in(opt_str_text(cookie_header)),
{
    match cookie_header {
        Some(header) => lookup_cookie(header, COOKIE_NAME),
        None => None,
    }
}

/// A character of the base64 alphabet, padding included.
pub open spec fn token_char(c: char) -> bool {
    let n = c as u32;
    (48 <= n <= 57) || (65 <= n <= 90) || (97 <= n <= 122) || n == 43 || n == 47 || n == 61
}

/// Text made of base64 characters only.
pub open spec fn token_text(s: Seq<char>) -> bool {
    forall|i: int| 0 <= i < s.len() ==> token_char(#[trigger] s[i])
}

/// A cookie can always be made from a base64 token.
pub proof fn lemma_token_cookie(token: Seq<char>)
    requires
        token_text(token),
    ensures
        header_text(cookie_text(token)),
{
    reveal_strlit("SESSION");
    reveal_strlit("=");
    reveal_strlit("; SameSite=Lax; Path=/");
    let name = COOKIE_NAME@;
    let attrs = COOKIE_ATTRIBUTES@;
    let text = cookie_text(token);
    assert forall|i: int| 0 <= i < text.len() implies header_char(#[trigger] text[i]) by {
        if i < name.len() {
            assert(text[i] == name[i]);
        } else if i < name.len() + 1 {
            assert(text[i] == "="@[i - name.len()]);
        } else if i < name.len() + 1 + token.len() {
            assert(text[i] == token[i - name.len() - 1]);
        } else {
            assert(text[i] == attrs[i - name.len() - 1 - token.len()]);
        }
    }
}

} // verus!
