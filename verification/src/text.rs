//! Verified string helpers over the character sequences that `String` and `str` view as.

use vstd::prelude::*;

verus! {

/// `s` begins with the characters of `p`.
pub open spec fn starts_with(s: Seq<char>, p: Seq<char>) -> bool {
    p.len() <= s.len() && s.subrange(0, p.len() as int) == p
}

/// Whether `s` begins with `p`.
pub fn has_prefix(s: &str, p: &str) -> (r: bool)
    ensures
        r == starts_with(s@, p@),
{
    let n = s.unicode_len();
    let m = p.unicode_len();
    if m > n {
        return false;
    }
    let mut i: usize = 0;
    while i < m
        invariant
            m == p@.len(),
            n == s@.len(),
            m <= n,
            i <= m,
            forall|j: int| 0 <= j < i ==> s@[j] == p@[j],
        decreases m - i,
    {
        if s.get_char(i) != p.get_char(i) {
            assert(s@.subrange(0, m as int)[i as int] != p@[i as int]);
            return false;
        }
        i = i + 1;
    }
    assert(s@.subrange(0, m as int) =~= p@);
    true
}

/// Whether two strings hold the same characters.
pub fn str_eq(a: &str, b: &str) -> (r: bool)
    ensures
        r == (a@ == b@),
{
    let x = String::from_str(a);
    let y = String::from_str(b);
    x == y
}

/// `s` without its first `p.len()` characters, where `s` starts with `p`; `None` otherwise.
pub fn strip_prefix(s: &str, p: &str) -> (r: Option<String>)
    ensures
        starts_with(s@, p@) ==> r is Some && r->0@ == s@.subrange(p@.len() as int, s@.len() as int),
        !starts_with(s@, p@) ==> r is None,
{
    if has_prefix(s, p) {
        let rest = s.substring_char(p.unicode_len(), s.unicode_len());
        Some(String::from_str(rest))
    } else {
        None
    }
}

} // verus!

verus! {

/// The character of a decimal digit.
pub open spec fn digit_char(d: int) -> char {
    if d == 0 { '0' } else if d == 1 { '1' } else if d == 2 { '2' } else if d == 3 { '3' }
    else if d == 4 { '4' } else if d == 5 { '5' } else if d == 6 { '6' } else if d == 7 { '7' }
    else if d == 8 { '8' } else { '9' }
}

/// Decimal digits of a natural number, most significant first, without leading zeros.
pub open spec fn decimal_digits(n: nat) -> Seq<char>
    decreases n,
{
    if n < 10 {
        seq![digit_char(n as int)]
    } else {
        decimal_digits(n / 10).push(digit_char((n % 10) as int))
    }
}

/// How Rust's `Display` writes an integer: a `-` before the digits of a negative number.
pub open spec fn decimal_text(v: int) -> Seq<char> {
    if v < 0 {
        seq!['-'] + decimal_digits((-v) as nat)
    } else {
        decimal_digits(v as nat)
    }
}

/// `std`'s `Display` of an `i128` (`to_string`): its decimal form.
#[verifier::external_body]
pub(crate) fn decimal_string(v: i128) -> (r: String)
    ensures
        r@ == decimal_text(v as int),
{
    v.to_string()
}

/// `String::push` from `std`: appends one character.
#[verifier::external_body]
pub(crate) fn push_char(s: &mut String, c: char)
    ensures
        final(s)@ == old(s)@.push(c),
{
    s.push(c)
}

/// Characters of `s` other than line feeds, in order.
pub open spec fn without_newlines(s: Seq<char>) -> Seq<char> {
    s.filter(|c: char| c != '\n')
}

pub fn remove_newlines(s: &str) -> (r: String)
    ensures
        r@ == without_newlines(s@),
{
    let mut out = String::new();
    for c in it: s.chars()
        invariant
            it.seq() == s@,
            out@ == without_newlines(s@.take(it.index() as int)),
    {
        proof {
            reveal_with_fuel(Seq::filter, 1);
        }
        assert(s@.take(it.index() + 1).drop_last() =~= s@.take(it.index() as int));
        if c != '\n' {
            push_char(&mut out, c);
        }
    }
    assert(s@.take(s@.len() as int) =~= s@);
    out
}

} // verus!

verus! {

/// `String::from_utf8` from `std`: the text the bytes encode, when they are valid UTF-8.
#[verifier::external_body]
pub(crate) fn utf8_decode(bytes: Vec<u8>) -> (r: Option<String>)
    ensures
        r is Some <==> vstd::utf8::valid_utf8(bytes@),
        r matches Some(s) ==> s@ == vstd::utf8::decode_utf8(bytes@),
{
    String::from_utf8(bytes).ok()
}

} // verus!

verus! {

/// `part` occurs in `s` as a contiguous run of characters.
pub open spec fn has_part(s: Seq<char>, part: Seq<char>) -> bool {
    exists|i: int| 0 <= i && i + part.len() <= s.len() && #[trigger] s.subrange(i, i + part.len()) == part
}

/// A text occurs in itself.
pub proof fn has_part_whole(s: Seq<char>)
    ensures
        has_part(s, s),
{
    let i: int = 0;
    assert(s.subrange(i, i + s.len()) =~= s);
}

/// What occurs in one of two texts occurs in the two run together.
pub broadcast proof fn has_part_concat(a: Seq<char>, b: Seq<char>, part: Seq<char>)
    ensures
        (has_part(a, part) || has_part(b, part)) ==> #[trigger] has_part(a + b, part),
{
    if has_part(a, part) {
        let i = choose|i: int| 0 <= i && i + part.len() <= a.len() && #[trigger] a.subrange(i, i + part.len()) == part;
        assert((a + b).subrange(i, i + part.len()) =~= a.subrange(i, i + part.len()));
    } else if has_part(b, part) {
        let i = choose|i: int| 0 <= i && i + part.len() <= b.len() && #[trigger] b.subrange(i, i + part.len()) == part;
        assert((a + b).subrange(a.len() + i, a.len() + i + part.len()) =~= b.subrange(i, i + part.len()));
    }
}

} // verus!

verus! {

/// Decimal text holds digits and at most a sign: never a line feed.
pub proof fn decimal_text_has_no_newline(v: int)
    ensures
        forall|i: int| 0 <= i < decimal_text(v).len() ==> decimal_text(v)[i] != '\n',
{
    let n: nat = if v < 0 { (-v) as nat } else { v as nat };
    decimal_digits_are_digits(n);
}

proof fn decimal_digits_are_digits(n: nat)
    ensures
        forall|i: int| 0 <= i < decimal_digits(n).len() ==> '0' <= #[trigger] decimal_digits(n)[i] <= '9',
    decreases n,
{
    let d = (n % 10) as int;
    assert('0' <= digit_char(d) <= '9');
    if n >= 10 {
        decimal_digits_are_digits(n / 10);
        let s = decimal_digits(n);
        assert forall|i: int| 0 <= i < s.len() implies '0' <= #[trigger] s[i] <= '9' by {
            if i < s.len() - 1 {
                assert(s[i] == decimal_digits(n / 10)[i]);
            }
        }
    }
}

/// Removing line feeds leaves none.
pub proof fn without_newlines_has_none(s: Seq<char>)
    ensures
        forall|i: int| 0 <= i < without_newlines(s).len() ==> without_newlines(s)[i] != '\n',
{
    broadcast use vstd::seq_lib::group_filter_ensures;
}

} // verus!
