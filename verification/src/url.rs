//! What is typed into the address bar, made into an address.

use crate::tab::HOME_URL;
use crate::tab::INTERNAL_SCHEME;
use crate::text::contains_char;
use crate::text::starts_with;
use crate::text::to_chars;
use vstd::prelude::*;
use vstd::string::*;

verus! {

pub const HTTPS: &'static str = "https://";

pub const HTTP: &'static str = "http://";

pub const ABOUT_SCHEME: &'static str = "about:";

pub const DATA_SCHEME: &'static str = "data:";

/// The address of a search, up to the words that are searched for.
pub const SEARCH_URL: &'static str = "https://search.brave.com/search?q=";

/// What kind of address a text is.
#[derive(Clone, Copy, Debug, PartialEq, Eq, Structural)]
pub enum AddressKind {
    /// Nothing was typed.
    Empty,
    /// An address with a scheme that is taken as it is.
    Verbatim,
    /// A host name without a scheme.
    Host,
    /// Words to search for.
    Query,
}

/// Whether `c` is whitespace, as `char::is_whitespace` tells it.
pub uninterp spec fn white_space(c: char) -> bool;

/// `char::is_whitespace` of std tells whether the character has the Unicode
/// property `White_Space`.
#[verifier::external_body]
fn is_whitespace(c: char) -> (r: bool)
    ensures
        r == white_space(c),
{
    c.is_whitespace()
}

/// `s` without the whitespace that it begins with.
pub open spec fn trimmed_start(s: Seq<char>) -> Seq<char>
    decreases s.len(),
{
    if s.len() > 0 && white_space(s[0]) {
        trimmed_start(s.skip(1))
    } else {
        s
    }
}

/// `s` without the whitespace that it ends with.
pub open spec fn trimmed_end(s: Seq<char>) -> Seq<char>
    decreases s.len(),
{
    if s.len() > 0 && white_space(s.last()) {
        trimmed_end(s.drop_last())
    } else {
        s
    }
}

/// `s` without the whitespace at its two ends.
pub open spec fn trimmed(s: Seq<char>) -> Seq<char> {
    trimmed_end(trimmed_start(s))
}

/// Takes the whitespace at the two ends of `s` away.
pub fn trim(s: &str) -> (t: String)
    ensures
        t@ == trimmed(s@),
{
    let sv = to_chars(s);
    let n = sv.len();
    let mut a: usize = 0;
    assert(sv@.skip(0) =~= sv@);
    while a < n && is_whitespace(sv[a])
        invariant
            n == sv@.len(),
            a <= n,
            trimmed_start(sv@.skip(a as int)) == trimmed_start(sv@),
        decreases n - a,
    {
        assert(sv@.skip(a as int).skip(1) =~= sv@.skip(a + 1));
        a += 1;
    }
    assert(trimmed_start(sv@) == sv@.skip(a as int));
    let mut b: usize = n;
    assert(sv@.subrange(a as int, n as int) =~= sv@.skip(a as int));
    while b > a && is_whitespace(sv[b - 1])
        invariant
            n == sv@.len(),
            a <= b <= n,
            trimmed_end(sv@.subrange(a as int, b as int)) == trimmed_end(sv@.skip(a as int)),
        decreases b,
    {
        assert(sv@.subrange(a as int, b as int).drop_last() =~= sv@.subrange(a as int, b - 1));
        b -= 1;
    }
    assert(trimmed_end(sv@.subrange(a as int, b as int)) == sv@.subrange(a as int, b as int));
    let mut out = String::new();
    let mut i: usize = a;
    while i < b
        invariant
            a <= i <= b,
            b <= sv@.len(),
            out@ == sv@.subrange(a as int, i as int),
        decreases b - i,
    {
        out.push(sv[i]);
        i += 1;
        assert(out@ =~= sv@.subrange(a as int, i as int));
    }
    out
}

/// Whether a byte is written as it is in a percent-encoded text: the ASCII
/// letters and digits, `-`, `.`, `_` and `~`.
pub open spec fn is_unreserved(b: u8) -> bool {
    (0x30 <= b <= 0x39) || (0x41 <= b <= 0x5a) || (0x61 <= b <= 0x7a) || b == 0x2d || b == 0x2e
        || b == 0x5f || b == 0x7e
}

/// The upper-case hexadecimal digit for `d`.
pub open spec fn hex_digit(d: int) -> char {
    if d < 10 {
        (0x30 + d) as u8 as char
    } else {
        (0x41 + d - 10) as u8 as char
    }
}

/// The bytes written one by one: an unreserved byte as its character, any
/// other as `%` and its two hexadecimal digits.
pub open spec fn percent_escaped(bytes: Seq<u8>) -> Seq<char>
    decreases bytes.len(),
{
    if bytes.len() == 0 {
        Seq::empty()
    } else {
        let b = bytes[0];
        let head = if is_unreserved(b) {
            seq![b as char]
        } else {
            seq!['%', hex_digit(b as int / 16), hex_digit(b as int % 16)]
        };
        head + percent_escaped(bytes.skip(1))
    }
}

/// `urlencoding::encode` percent-encodes the UTF-8 bytes of the text: every
/// byte but the unreserved ones becomes `%` and two upper-case hexadecimal
/// digits.
#[verifier::external_body]
fn percent_encode(s: &str) -> (r: String)
    ensures
        r@ == percent_escaped(s.spec_bytes()),
{
    urlencoding::encode(s).into_owned()
}

/// The kind of a text: a text with a dot and without a space is a host.
pub open spec fn address_kind(t: Seq<char>) -> AddressKind {
    if t.len() == 0 {
        AddressKind::Empty
    } else if ABOUT_SCHEME@.is_prefix_of(t) || INTERNAL_SCHEME@.is_prefix_of(t)
        || DATA_SCHEME@.is_prefix_of(t) || HTTP@.is_prefix_of(t) || HTTPS@.is_prefix_of(t) {
        AddressKind::Verbatim
    } else if t.contains('.') && !t.contains(' ') {
        AddressKind::Host
    } else {
        AddressKind::Query
    }
}

/// The address for a text, taken as it stands: the start page for nothing,
/// the text itself where it has a known scheme, the text behind `https://`
/// where it looks like a host, and else a search for it.
pub open spec fn normalized_trimmed(t: Seq<char>) -> Seq<char> {
    match address_kind(t) {
        AddressKind::Empty => HOME_URL@,
        AddressKind::Verbatim => t,
        AddressKind::Host => HTTPS@ + t,
        AddressKind::Query => SEARCH_URL@ + percent_escaped(vstd::utf8::encode_utf8(t)),
    }
}

/// Tells what kind of address `t` is.
pub fn classify_address(t: &str) -> (k: AddressKind)
    ensures
        k == address_kind(t@),
{
    if t.is_empty() {
        AddressKind::Empty
    } else if starts_with(t, ABOUT_SCHEME) || starts_with(t, INTERNAL_SCHEME) || starts_with(
        t,
        DATA_SCHEME,
    ) || starts_with(t, HTTP) || starts_with(t, HTTPS) {
        AddressKind::Verbatim
    } else if contains_char(t, '.') && !contains_char(t, ' ') {
        AddressKind::Host
    } else {
        AddressKind::Query
    }
}

/// The address for `t`, taken as it stands: its outer whitespace, if it has
/// any, is part of it.
pub fn normalize_trimmed(t: &str) -> (url: String)
    ensures
        url@ == normalized_trimmed(t@),
{
    match classify_address(t) {
        AddressKind::Empty => String::from_str(HOME_URL),
        AddressKind::Verbatim => String::from_str(t),
        AddressKind::Host => {
            let mut url = String::from_str(HTTPS);
            url.append(t);
            url
        },
        AddressKind::Query => {
            let mut url = String::from_str(SEARCH_URL);
            let q = percent_encode(t);
            url.append(q.as_str());
            url
        },
    }
}

/// The address for what was typed: the text without the whitespace at its
/// ends, normalized.
pub open spec fn normalized(raw: Seq<char>) -> Seq<char> {
    normalized_trimmed(trimmed(raw))
}

/// Makes an address of what was typed into the address bar.
pub fn normalize_url(raw: &str) -> (url: String)
    ensures
        url@ == normalized(raw@),
{
    let t = trim(raw);
    normalize_trimmed(t.as_str())
}

} // verus!
