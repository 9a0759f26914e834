//! Text helpers: decimal rendering, comparison and character classes.
use vstd::prelude::*;

verus! {

/// The ASCII digit character for `d`, where `d < 10`.
pub open spec fn digit_char(d: nat) -> char {
    if d == 0 { '0' }
    else if d == 1 { '1' }
    else if d == 2 { '2' }
    else if d == 3 { '3' }
    else if d == 4 { '4' }
    else if d == 5 { '5' }
    else if d == 6 { '6' }
    else if d == 7 { '7' }
    else if d == 8 { '8' }
    else { '9' }
}

/// The decimal rendering of `n`, without sign or leading zeros.
pub open spec fn decimal(n: nat) -> Seq<char>
    decreases n,
{
    if n < 10 {
        seq![digit_char(n)]
    } else {
        decimal(n / 10).push(digit_char(n % 10))
    }
}

/// Whether `r` is an error whose message is `m`.
pub open spec fn is_err_with<T>(r: Result<T, String>, m: Seq<char>) -> bool {
    match r {
        Err(e) => e@ == m,
        Ok(_) => false,
    }
}

/// Number of bytes of the UTF-8 encoding of `s`.
pub open spec fn byte_len(s: Seq<char>) -> nat {
    vstd::utf8::encode_utf8(s).len()
}

/// A text takes at least one and at most four bytes per character.
pub proof fn lemma_byte_len_bounds(s: Seq<char>)
    ensures
        s.len() <= byte_len(s) <= 4 * s.len(),
    decreases s.len(),
{
    if s.len() > 0 {
        lemma_byte_len_bounds(s.drop_first());
        let e = vstd::utf8::encode_scalar(s[0] as u32);
        assert(1 <= e.len() <= 4);
    }
}

/// An ASCII lowercase letter.
pub open spec fn is_ascii_lower(c: char) -> bool {
    'a' <= c && c <= 'z'
}

/// An ASCII uppercase letter.
pub open spec fn is_ascii_upper(c: char) -> bool {
    'A' <= c && c <= 'Z'
}

/// An ASCII decimal digit.
pub open spec fn is_ascii_digit(c: char) -> bool {
    '0' <= c && c <= '9'
}

/// An ASCII letter or digit.
pub open spec fn is_ascii_alnum(c: char) -> bool {
    is_ascii_lower(c) || is_ascii_upper(c) || is_ascii_digit(c)
}

/// The character `c` with ASCII lowercase letters mapped to uppercase.
pub open spec fn ascii_upper(c: char) -> char {
    if is_ascii_lower(c) {
        ((c as u32) - 32) as char
    } else {
        c
    }
}

/// `s` with every ASCII lowercase letter mapped to uppercase.
pub open spec fn ascii_uppercase(s: Seq<char>) -> Seq<char> {
    Seq::new(s.len(), |i: int| ascii_upper(s[i]))
}

/// The one-character text of the digit `d`.
fn digit_text(d: u64) -> (r: String)
    requires
        d < 10,
    ensures
        r@ == seq![digit_char(d as nat)],
{
    let c: char = if d == 0 { '0' }
        else if d == 1 { '1' }
        else if d == 2 { '2' }
        else if d == 3 { '3' }
        else if d == 4 { '4' }
        else if d == 5 { '5' }
        else if d == 6 { '6' }
        else if d == 7 { '7' }
        else if d == 8 { '8' }
        else { '9' };
    char_to_string(c)
}

/// Renders a number in decimal, as std's `Display` for integers does.
pub(crate) fn decimal_string(n: u64) -> (r: String)
    ensures
        r@ == decimal(n as nat),
    decreases n,
{
    if n < 10 {
        digit_text(n)
    } else {
        let mut s = decimal_string(n / 10);
        let d = digit_text(n % 10);
        s.append(d.as_str());
        proof {
            assert(s@ =~= decimal((n / 10) as nat).push(digit_char((n % 10) as nat)));
        }
        s
    }
}

/// Tests two strings for equal contents.
pub fn text_eq(a: &str, b: &str) -> (r: bool)
    ensures
        r == (a@ == b@),
{
    a.to_owned() == b.to_owned()
}

/// `a` followed by `b`, as a new `String`.
pub fn concat2(a: &str, b: &str) -> (r: String)
    ensures
        r@ == a@ + b@,
{
    let mut s = String::from_str(a);
    s.append(b);
    s
}

/// `a`, `b` and `c` one after the other, as a new `String`.
pub fn concat3(a: &str, b: &str, c: &str) -> (r: String)
    ensures
        r@ == a@ + b@ + c@,
{
    let mut s = String::from_str(a);
    s.append(b);
    s.append(c);
    s
}

/// `a`, `b`, `c` and `d` one after the other, as a new `String`.
pub fn concat4(a: &str, b: &str, c: &str, d: &str) -> (r: String)
    ensures
        r@ == a@ + b@ + c@ + d@,
{
    let mut s = String::from_str(a);
    s.append(b);
    s.append(c);
    s.append(d);
    s
}

/// Copies a string.
pub fn copy_text(a: &str) -> (r: String)
    ensures
        r@ == a@,
{
    String::from_str(a)
}

/// Returns `Some` of the text after `prefix` when `s` starts with it.
pub fn strip_prefix_text(s: &str, prefix: &str) -> (r: Option<String>)
    ensures
        match r {
            Some(t) => s@.len() >= prefix@.len() && s@.subrange(0, prefix@.len() as int) == prefix@
                && t@ == s@.subrange(prefix@.len() as int, s@.len() as int),
            None => !(s@.len() >= prefix@.len() && s@.subrange(0, prefix@.len() as int) == prefix@),
        },
{
    let n = s.unicode_len();
    let k = prefix.unicode_len();
    if k > n {
        return None;
    }
    let mut i: usize = 0;
    while i < k
        invariant
            k == prefix@.len(),
            n == s@.len(),
            k <= n,
            i <= k,
            forall|j: int| 0 <= j < i ==> s@[j] == prefix@[j],
        decreases k - i,
    {
        if s.get_char(i) != prefix.get_char(i) {
            assert(s@.subrange(0, k as int)[i as int] != prefix@[i as int]);
            return None;
        }
        i = i + 1;
    }
    assert(s@.subrange(0, k as int) =~= prefix@);
    Some(String::from_str(s.substring_char(k, n)))
}

/// Returns `Some` of the text before `suffix` when `s` ends with it.
pub fn strip_suffix_text(s: &str, suffix: &str) -> (r: Option<String>)
    ensures
        match r {
            Some(t) => s@.len() >= suffix@.len()
                && s@.subrange(s@.len() - suffix@.len(), s@.len() as int) == suffix@
                && t@ == s@.subrange(0, s@.len() - suffix@.len()),
            None => !(s@.len() >= suffix@.len()
                && s@.subrange(s@.len() - suffix@.len(), s@.len() as int) == suffix@),
        },
{
    let n = s.unicode_len();
    let k = suffix.unicode_len();
    if k > n {
        return None;
    }
    let start = n - k;
    let mut i: usize = 0;
    while i < k
        invariant
            k == suffix@.len(),
            n == s@.len(),
            k <= n,
            start == n - k,
            i <= k,
            forall|j: int| 0 <= j < i ==> s@[start + j] == suffix@[j],
        decreases k - i,
    {
        if s.get_char(start + i) != suffix.get_char(i) {
            assert(s@.subrange(start as int, n as int)[i as int] != suffix@[i as int]);
            return None;
        }
        i = i + 1;
    }
    assert(s@.subrange(start as int, n as int) =~= suffix@);
    Some(String::from_str(s.substring_char(0, start)))
}

/// `s` with ASCII lowercase letters turned to uppercase (std's `str::to_uppercase`
/// agrees with this on ASCII text).
pub fn to_ascii_upper(s: &str) -> (r: String)
    ensures
        r@ == ascii_uppercase(s@),
{
    let n = s.unicode_len();
    let mut out = String::new();
    let mut i: usize = 0;
    while i < n
        invariant
            n == s@.len(),
            i <= n,
            out@ =~= ascii_uppercase(s@.subrange(0, i as int)),
        decreases n - i,
    {
        let c = s.get_char(i);
        let u = upper_char_text(c);
        out.append(u.as_str());
        assert(s@.subrange(0, i + 1) =~= s@.subrange(0, i as int).push(c));
        i = i + 1;
    }
    assert(s@.subrange(0, n as int) =~= s@);
    out
}

/// A one-character string holding `c` mapped to ASCII uppercase.
fn upper_char_text(c: char) -> (r: String)
    ensures
        r@ == seq![ascii_upper(c)],
{
    let u: char = if 'a' <= c && c <= 'z' {
        let v: u32 = (c as u32) - 32;
        assert(0x41 <= v <= 0x5a);
        char_from_ascii(v as u8)
    } else {
        c
    };
    char_to_string(u)
}

/// The ASCII character with code `b`, where `b < 128`.
pub(crate) fn char_from_ascii(b: u8) -> (c: char)
    requires
        b < 128,
    ensures
        c as u32 == b as u32,
{
    b as char
}

/// A one-character string (std's `char::to_string`).
#[verifier::external_body]
pub(crate) fn char_to_string(c: char) -> (r: String)
    ensures
        r@ == seq![c],
{
    c.to_string()
}

} // verus!
