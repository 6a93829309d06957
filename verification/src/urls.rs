//! URL handling through the `url` crate, on URL serializations held as plain strings.
use vstd::prelude::*;

verus! {

/// The serialization of the URL that `input` resolves to against the URL `base`, or `None`
/// where `base` does not parse as a URL or `input` does not parse against it.
pub uninterp spec fn url_join_result(base: Seq<char>, input: Seq<char>) -> Option<Seq<char>>;

/// The serialization of the URL `url` with its query replaced by `query`, or `None` where
/// `url` does not parse as a URL.
pub uninterp spec fn url_with_query_result(url: Seq<char>, query: Seq<char>) -> Option<
    Seq<char>,
>;

/// The URL `url` written relative to the URL `base`, or `None` where either does not parse or
/// `url` cannot be written relative to `base`.
pub uninterp spec fn url_relative_result(base: Seq<char>, url: Seq<char>) -> Option<Seq<char>>;

/// The serialization that `input` parses to as an absolute URL, or `None`.
pub uninterp spec fn url_parse_result(input: Seq<char>) -> Option<Seq<char>>;

/// Bytes that `application/x-www-form-urlencoded` serialization keeps as they are.
pub open spec fn form_unchanged_byte(b: u8) -> bool {
    b == 42 || b == 45 || b == 46 || (48 <= b <= 57) || (65 <= b <= 90) || b == 95 || (97 <= b
        <= 122)
}

/// An upper-case hexadecimal digit.
pub open spec fn hex_upper(d: int) -> char {
    if d < 10 {
        ((48 + d) as u8) as char
    } else {
        ((55 + d) as u8) as char
    }
}

/// The form-urlencoded serialization of one byte.
pub open spec fn form_byte(b: u8) -> Seq<char> {
    if form_unchanged_byte(b) {
        seq![b as char]
    } else if b == 32 {
        seq!['+']
    } else {
        seq!['%', hex_upper((b / 16) as int), hex_upper((b % 16) as int)]
    }
}

/// The form-urlencoded serialization of a byte string.
pub open spec fn form_encode_bytes(bs: Seq<u8>) -> Seq<char>
    decreases bs.len(),
{
    if bs.len() == 0 {
        Seq::empty()
    } else {
        form_byte(bs[0]) + form_encode_bytes(bs.drop_first())
    }
}

/// The form-urlencoded serialization of a string's UTF-8 bytes.
pub open spec fn form_encode(s: Seq<char>) -> Seq<char> {
    form_encode_bytes(vstd::utf8::encode_utf8(s))
}

/// `url::form_urlencoded::byte_serialize` of the UTF-8 bytes of `s`, collected into a string:
/// bytes `*`, `-`, `.`, `_`, ASCII digits and letters stay, a space becomes `+`, and every
/// other byte becomes `%` and two upper-case hex digits.
#[verifier::external_body]
pub(crate) fn form_urlencode(s: &str) -> (r: String)
    ensures
        r@ == form_encode(s@),
{
    url::form_urlencoded::byte_serialize(s.as_bytes()).collect()
}

/// `Url::parse` of `input`, giving the URL's serialization. The contract names the result.
#[verifier::external_body]
pub(crate) fn url_parse(input: &str) -> (r: Option<String>)
    ensures
        match r {
            Some(s) => url_parse_result(input@) == Some(s@),
            None => url_parse_result(input@) is None,
        },
{
    match url::Url::parse(input) {
        Ok(u) => Some(String::from(u)),
        Err(_) => None,
    }
}

/// `Url::join`: resolves `input` against the URL `base` (read with `Url::parse`), giving the
/// serialization. The contract names the result; it says nothing of URL syntax.
#[verifier::external_body]
pub(crate) fn url_join(base: &str, input: &str) -> (r: Option<String>)
    ensures
        match r {
            Some(s) => url_join_result(base@, input@) == Some(s@),
            None => url_join_result(base@, input@) is None,
        },
{
    match url::Url::parse(base) {
        Ok(b) => match b.join(input) {
            Ok(u) => Some(String::from(u)),
            Err(_) => None,
        },
        Err(_) => None,
    }
}

/// `Url::set_query(Some(query))` on the URL `url` (read with `Url::parse`), giving the
/// serialization. The contract names the result.
#[verifier::external_body]
pub(crate) fn url_with_query(url: &str, query: &str) -> (r: Option<String>)
    ensures
        match r {
            Some(s) => url_with_query_result(url@, query@) == Some(s@),
            None => url_with_query_result(url@, query@) is None,
        },
{
    match url::Url::parse(url) {
        Ok(mut u) => {
            u.set_query(Some(query));
            Some(String::from(u))
        },
        Err(_) => None,
    }
}

/// `Url::make_relative`: `url` written relative to `base` (both read with `Url::parse`).
/// The contract names the result.
#[verifier::external_body]
pub(crate) fn url_relative(base: &str, url: &str) -> (r: Option<String>)
    ensures
        match r {
            Some(s) => url_relative_result(base@, url@) == Some(s@),
            None => url_relative_result(base@, url@) is None,
        },
{
    match (url::Url::parse(base), url::Url::parse(url)) {
        (Ok(b), Ok(u)) => b.make_relative(&u),
        _ => None,
    }
}

} // verus!
