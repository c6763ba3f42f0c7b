//! Character-level helpers on strings: prefix tests, substitution, decimal
//! numbers.

use vstd::prelude::*;
use vstd::string::*;

verus! {

/// `String::push` of std appends one character to the end of the string.
pub assume_specification[ String::push ](s: &mut String, c: char)
    ensures
        final(s)@ == old(s)@.push(c),
;

/// The characters of `s`, in order.
pub fn to_chars(s: &str) -> (v: Vec<char>)
    ensures
        v@ == s@,
{
    let mut v: Vec<char> = Vec::new();
    for c in it: s.chars()
        invariant
            v@ == it.seq().take(it.index@),
    {
        v.push(c);
    }
    v
}

/// Appends the characters `v[from..]` to `out`.
fn push_chars(out: &mut String, v: &Vec<char>, from: usize)
    requires
        from <= v@.len(),
    ensures
        final(out)@ == old(out)@ + v@.skip(from as int),
{
    let mut i: usize = from;
    while i < v.len()
        invariant
            from <= i <= v@.len(),
            out@ == old(out)@ + v@.subrange(from as int, i as int),
        decreases v@.len() - i,
    {
        out.push(v[i]);
        i += 1;
        assert(out@ =~= old(out)@ + v@.subrange(from as int, i as int));
    }
    assert(v@.subrange(from as int, i as int) =~= v@.skip(from as int));
}

/// Whether `pat` occurs in `s` at position `at`.
fn matches_at(s: &Vec<char>, at: usize, pat: &Vec<char>) -> (r: bool)
    requires
        at <= s@.len(),
    ensures
        r == pat@.is_prefix_of(s@.skip(at as int)),
{
    if pat.len() > s.len() - at {
        return false;
    }
    let n = s.len();
    let mut k: usize = 0;
    while k < pat.len()
        invariant
            n == s@.len(),
            at <= s@.len(),
            pat@.len() <= s@.len() - at,
            k <= pat@.len(),
            forall|j: int| 0 <= j < k ==> pat@[j] == s@[at + j],
        decreases pat@.len() - k,
    {
        if pat[k] != s[at + k] {
            proof {
                let tail = s@.skip(at as int);
                assert(tail.subrange(0, pat@.len() as int)[k as int] == s@[at + k]);
            }
            return false;
        }
        k += 1;
    }
    assert(pat@ =~= s@.skip(at as int).subrange(0, pat@.len() as int));
    true
}

/// Whether `s` begins with `prefix`.
pub fn starts_with(s: &str, prefix: &str) -> (r: bool)
    ensures
        r == prefix@.is_prefix_of(s@),
{
    let sv = to_chars(s);
    let pv = to_chars(prefix);
    assert(sv@.skip(0) =~= sv@);
    matches_at(&sv, 0, &pv)
}

/// Whether the two strings hold the same characters.
pub fn same_text(a: &str, b: &str) -> (r: bool)
    ensures
        r == (a@ == b@),
{
    let av = to_chars(a);
    let bv = to_chars(b);
    if av.len() != bv.len() {
        return false;
    }
    assert(av@.skip(0) =~= av@);
    let r = matches_at(&av, 0, &bv);
    proof {
        if r {
            assert(av@.subrange(0, bv@.len() as int) =~= av@);
        }
    }
    r
}

/// The part of `s` behind `prefix`, if `s` begins with it.
pub fn strip_prefix(s: &str, prefix: &str) -> (r: Option<String>)
    ensures
        r is Some <==> prefix@.is_prefix_of(s@),
        r is Some ==> r->0@ == s@.skip(prefix@.len() as int),
{
    let sv = to_chars(s);
    let pv = to_chars(prefix);
    assert(sv@.skip(0) =~= sv@);
    if matches_at(&sv, 0, &pv) {
        let mut out = String::new();
        push_chars(&mut out, &sv, pv.len());
        assert(out@ =~= s@.skip(prefix@.len() as int));
        Some(out)
    } else {
        None
    }
}

/// Whether the character `c` occurs in `s`.
pub fn contains_char(s: &str, c: char) -> (r: bool)
    ensures
        r == s@.contains(c),
{
    let sv = to_chars(s);
    let mut i: usize = 0;
    while i < sv.len()
        invariant
            sv@ == s@,
            i <= sv@.len(),
            forall|j: int| 0 <= j < i ==> sv@[j] != c,
        decreases sv@.len() - i,
    {
        if sv[i] == c {
            assert(sv@[i as int] == c);
            return true;
        }
        i += 1;
    }
    false
}

/// `s` with every occurrence of `pat` replaced by `with`, found from left to
/// right without overlap. An empty `pat` occurs nowhere.
pub open spec fn replaced(s: Seq<char>, pat: Seq<char>, with: Seq<char>) -> Seq<char>
    decreases s.len(),
{
    if pat.len() == 0 || s.len() == 0 {
        s
    } else if pat.is_prefix_of(s) {
        with + replaced(s.skip(pat.len() as int), pat, with)
    } else {
        seq![s[0]] + replaced(s.skip(1), pat, with)
    }
}

/// Replaces every occurrence of `pat` in `s` by `with`.
pub fn replace_all(s: &str, pat: &str, with: &str) -> (r: String)
    ensures
        r@ == replaced(s@, pat@, with@),
{
    let sv = to_chars(s);
    let pv = to_chars(pat);
    let mut out = String::new();
    if pv.len() == 0 {
        push_chars(&mut out, &sv, 0);
        assert(out@ =~= s@);
        return out;
    }
    let mut i: usize = 0;
    assert(sv@.skip(0) =~= sv@);
    assert(out@ + replaced(sv@, pv@, with@) =~= replaced(sv@, pv@, with@));
    while i < sv.len()
        invariant
            i <= sv@.len(),
            pv@.len() > 0,
            out@ + replaced(sv@.skip(i as int), pv@, with@) == replaced(sv@, pv@, with@),
        decreases sv@.len() - i,
    {
        let ghost rest = sv@.skip(i as int);
        let ghost before = out@;
        if matches_at(&sv, i, &pv) {
            out.append(with);
            i += pv.len();
            assert(rest.skip(pv@.len() as int) =~= sv@.skip(i as int));
            assert(out@ + replaced(sv@.skip(i as int), pv@, with@) =~= before + replaced(
                rest,
                pv@,
                with@,
            ));
        } else {
            out.push(sv[i]);
            i += 1;
            assert(rest.skip(1) =~= sv@.skip(i as int));
            assert(out@ + replaced(sv@.skip(i as int), pv@, with@) =~= before + replaced(
                rest,
                pv@,
                with@,
            ));
        }
    }
    assert(out@ + replaced(sv@.skip(i as int), pv@, with@) =~= out@);
    out
}

/// The number of bytes that `c` takes in UTF-8.
pub open spec fn utf8_width(c: char) -> nat {
    if (c as u32) < 0x80 {
        1
    } else if (c as u32) < 0x800 {
        2
    } else if (c as u32) < 0x10000 {
        3
    } else {
        4
    }
}

/// The longest prefix of `s` that takes no more than `n` bytes in UTF-8:
/// all of `s` where it is no longer than that.
pub open spec fn fitting_prefix(s: Seq<char>, n: nat) -> Seq<char>
    decreases s.len(),
{
    if s.len() == 0 || utf8_width(s[0]) > n {
        Seq::empty()
    } else {
        seq![s[0]] + fitting_prefix(s.skip(1), (n - utf8_width(s[0])) as nat)
    }
}

fn width_of(c: char) -> (w: usize)
    ensures
        w == utf8_width(c),
{
    let code = c as u32;
    if code < 0x80 {
        1
    } else if code < 0x800 {
        2
    } else if code < 0x10000 {
        3
    } else {
        4
    }
}

/// Cuts `s` to its first `n` bytes, and to the end of the last character
/// that lies within them whole.
pub fn prefix_within(s: &str, n: usize) -> (r: String)
    ensures
        r@ == fitting_prefix(s@, n as nat),
{
    let sv = to_chars(s);
    let mut out = String::new();
    let mut room: usize = n;
    let mut i: usize = 0;
    assert(sv@.skip(0) =~= sv@);
    assert(out@ + fitting_prefix(sv@, n as nat) =~= fitting_prefix(sv@, n as nat));
    while i < sv.len() && width_of(sv[i]) <= room
        invariant
            i <= sv@.len(),
            out@ + fitting_prefix(sv@.skip(i as int), room as nat) == fitting_prefix(
                sv@,
                n as nat,
            ),
        decreases sv@.len() - i,
    {
        let ghost before = out@;
        let ghost rest = sv@.skip(i as int);
        let ghost had = room;
        out.push(sv[i]);
        room = room - width_of(sv[i]);
        i += 1;
        assert(rest.skip(1) =~= sv@.skip(i as int));
        assert(out@ + fitting_prefix(sv@.skip(i as int), room as nat) =~= before
            + fitting_prefix(rest, had as nat));
    }
    assert(fitting_prefix(sv@.skip(i as int), room as nat) =~= Seq::<char>::empty());
    assert(out@ + Seq::<char>::empty() =~= out@);
    out
}

/// The character that stands for the digit `d`.
pub open spec fn digit_char(d: int) -> char {
    if d == 0 {
        '0'
    } else if d == 1 {
        '1'
    } else if d == 2 {
        '2'
    } else if d == 3 {
        '3'
    } else if d == 4 {
        '4'
    } else if d == 5 {
        '5'
    } else if d == 6 {
        '6'
    } else if d == 7 {
        '7'
    } else if d == 8 {
        '8'
    } else {
        '9'
    }
}

/// Whether `c` is one of the ten decimal digits.
pub open spec fn is_digit(c: char) -> bool {
    c == '0' || c == '1' || c == '2' || c == '3' || c == '4' || c == '5' || c == '6' || c == '7'
        || c == '8' || c == '9'
}

/// The digit that `c` stands for, and 0 for any other character.
pub open spec fn digit_value(c: char) -> nat {
    if c == '1' {
        1
    } else if c == '2' {
        2
    } else if c == '3' {
        3
    } else if c == '4' {
        4
    } else if c == '5' {
        5
    } else if c == '6' {
        6
    } else if c == '7' {
        7
    } else if c == '8' {
        8
    } else if c == '9' {
        9
    } else {
        0
    }
}

/// `n` in decimal, without leading zeros.
pub open spec fn decimal(n: nat) -> Seq<char>
    decreases n,
{
    if n < 10 {
        seq![digit_char(n as int)]
    } else {
        decimal(n / 10).push(digit_char((n % 10) as int))
    }
}

/// The number that a run of digits stands for.
pub open spec fn digits_value(s: Seq<char>) -> nat
    decreases s.len(),
{
    if s.len() == 0 {
        0
    } else {
        digits_value(s.drop_last()) * 10 + digit_value(s.last())
    }
}

pub open spec fn all_digits(s: Seq<char>) -> bool {
    forall|i: int| 0 <= i < s.len() ==> is_digit(#[trigger] s[i])
}

/// The index that `s` stands for: one or more decimal digits, with a `+`
/// before them or not, that name a number no larger than `usize::MAX`.
pub open spec fn index_value(s: Seq<char>) -> Option<usize> {
    let body = if s.len() > 0 && s[0] == '+' {
        s.skip(1)
    } else {
        s
    };
    if body.len() > 0 && all_digits(body) && digits_value(body) <= usize::MAX {
        Some(digits_value(body) as usize)
    } else {
        None
    }
}

/// A longer run of digits stands for no smaller a number than its prefix.
pub proof fn lemma_digits_monotone(s: Seq<char>, j: int)
    requires
        0 <= j <= s.len(),
    ensures
        digits_value(s.take(j)) <= digits_value(s),
    decreases s.len(),
{
    if j == s.len() {
        assert(s.take(j) =~= s);
    } else {
        lemma_digits_monotone(s.drop_last(), j);
        assert(s.drop_last().take(j) =~= s.take(j));
    }
}

fn digit(d: usize) -> (c: char)
    requires
        d < 10,
    ensures
        c == digit_char(d as int),
{
    if d == 0 {
        '0'
    } else if d == 1 {
        '1'
    } else if d == 2 {
        '2'
    } else if d == 3 {
        '3'
    } else if d == 4 {
        '4'
    } else if d == 5 {
        '5'
    } else if d == 6 {
        '6'
    } else if d == 7 {
        '7'
    } else if d == 8 {
        '8'
    } else {
        '9'
    }
}

fn digit_of(c: char) -> (d: Option<usize>)
    ensures
        d is Some <==> is_digit(c),
        d is Some ==> d->0 == digit_value(c),
{
    if c == '0' {
        Some(0)
    } else if c == '1' {
        Some(1)
    } else if c == '2' {
        Some(2)
    } else if c == '3' {
        Some(3)
    } else if c == '4' {
        Some(4)
    } else if c == '5' {
        Some(5)
    } else if c == '6' {
        Some(6)
    } else if c == '7' {
        Some(7)
    } else if c == '8' {
        Some(8)
    } else if c == '9' {
        Some(9)
    } else {
        None
    }
}

/// Appends `n` in decimal to `out`.
pub fn push_decimal(out: &mut String, n: usize)
    ensures
        final(out)@ == old(out)@ + decimal(n as nat),
    decreases n,
{
    if n >= 10 {
        push_decimal(out, n / 10);
    }
    out.push(digit(n % 10));
    assert(out@ =~= old(out)@ + decimal(n as nat));
}

/// Reads an index: decimal digits, with a `+` before them or not.
pub fn parse_index(s: &str) -> (r: Option<usize>)
    ensures
        r == index_value(s@),
{
    let sv = to_chars(s);
    let n = sv.len();
    let start: usize = if n > 0 && sv[0] == '+' { 1 } else { 0 };
    let ghost body = sv@.skip(start as int);
    assert(body =~= (if s@.len() > 0 && s@[0] == '+' {
        s@.skip(1)
    } else {
        s@
    }));
    if start == n {
        return None;
    }
    let mut acc: usize = 0;
    let mut i: usize = start;
    assert(body.take(0) =~= Seq::<char>::empty());
    while i < n
        invariant
            n == sv@.len(),
            start <= i <= n,
            body == sv@.skip(start as int),
            body == (if s@.len() > 0 && s@[0] == '+' {
                s@.skip(1)
            } else {
                s@
            }),
            all_digits(body.take(i - start)),
            acc == digits_value(body.take(i - start)),
        decreases n - i,
    {
        let ghost seen = body.take(i - start);
        let ghost next = body.take(i - start + 1);
        assert(next.drop_last() =~= seen);
        assert(next.last() == sv@[i as int]);
        match digit_of(sv[i]) {
            None => {
                assert(!is_digit(body[i - start]));
                return None;
            },
            Some(d) => {
                if acc > (usize::MAX - d) / 10 {
                    proof {
                        lemma_digits_monotone(body, i - start + 1);
                    }
                    return None;
                }
                acc = acc * 10 + d;
                assert forall|j: int| 0 <= j < next.len() implies is_digit(#[trigger] next[j]) by {
                    if j < seen.len() {
                        assert(next[j] == seen[j]);
                    }
                }
            },
        }
        i += 1;
    }
    assert(body.take(n - start) =~= body);
    Some(acc)
}

/// Whether `pat` occurs somewhere in `s`.
pub open spec fn occurs_in(pat: Seq<char>, s: Seq<char>) -> bool {
    exists|i: int| 0 <= i <= s.len() && pat.is_prefix_of(#[trigger] s.skip(i))
}

/// Whether `pat` occurs somewhere in `s`.
pub fn contains_text(s: &str, pat: &str) -> (r: bool)
    ensures
        r == occurs_in(pat@, s@),
{
    let sv = to_chars(s);
    let pv = to_chars(pat);
    let n = sv.len();
    let mut i: usize = 0;
    while i < n
        invariant
            sv@ == s@,
            pv@ == pat@,
            n == sv@.len(),
            i <= n,
            forall|j: int| 0 <= j < i ==> !pv@.is_prefix_of(#[trigger] sv@.skip(j)),
        decreases n - i,
    {
        if matches_at(&sv, i, &pv) {
            return true;
        }
        i += 1;
    }
    matches_at(&sv, n, &pv)
}

/// `s` without the run of `c` that it begins with.
pub open spec fn without_leading(s: Seq<char>, c: char) -> Seq<char>
    decreases s.len(),
{
    if s.len() > 0 && s[0] == c {
        without_leading(s.skip(1), c)
    } else {
        s
    }
}

/// Takes the run of `c` at the start of `s` away.
pub fn strip_leading(s: &str, c: char) -> (r: String)
    ensures
        r@ == without_leading(s@, c),
{
    let sv = to_chars(s);
    let n = sv.len();
    let mut i: usize = 0;
    assert(sv@.skip(0) =~= sv@);
    while i < n && sv[i] == c
        invariant
            n == sv@.len(),
            i <= n,
            without_leading(sv@.skip(i as int), c) == without_leading(sv@, c),
        decreases n - i,
    {
        assert(sv@.skip(i as int).skip(1) =~= sv@.skip(i + 1));
        i += 1;
    }
    let mut out = String::new();
    push_chars(&mut out, &sv, i);
    assert(out@ =~= sv@.skip(i as int));
    out
}

/// The digits of `n` are digits, and stand for `n`.
pub proof fn lemma_decimal_value(n: nat)
    ensures
        decimal(n).len() > 0,
        all_digits(decimal(n)),
        digits_value(decimal(n)) == n,
        decimal(n)[0] != '+',
    decreases n,
{
    if n < 10 {
        let s = decimal(n);
        assert(s.drop_last() =~= Seq::<char>::empty());
        assert(digits_value(s.drop_last()) == 0);
    } else {
        lemma_decimal_value(n / 10);
        let head = decimal(n / 10);
        let s = decimal(n);
        assert(s.drop_last() =~= head);
        assert(s.last() == digit_char((n % 10) as int));
        assert forall|i: int| 0 <= i < s.len() implies is_digit(#[trigger] s[i]) by {
            if i < head.len() {
                assert(s[i] == head[i]);
            }
        }
        assert(s[0] == head[0]);
    }
}

/// An index written in decimal is read back as it was.
pub proof fn lemma_index_round_trip(n: usize)
    ensures
        index_value(decimal(n as nat)) == Some(n),
{
    lemma_decimal_value(n as nat);
}

} // verus!
