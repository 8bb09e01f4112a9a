//! String primitives shared by the rest of the crate.
//!
//! Strings are modelled by their view, a `Seq<char>`. The few std string
//! operations that have no specification elsewhere are given one here.

use vstd::prelude::*;

verus! {

/// `str::eq` compares two string slices character by character.
pub assume_specification[ <str as PartialEq>::eq ](a: &str, b: &str) -> (r: bool)
    ensures
        r == (a@ == b@),
;

/// `String::push` appends one character to the end of the string.
pub assume_specification[ String::push ](s: &mut String, c: char)
    ensures
        final(s)@ == old(s)@.push(c),
;

/// Lexicographic order on character sequences, by code point. A proper
/// prefix sorts before the longer sequence.
pub open spec fn lex_lt(a: Seq<char>, b: Seq<char>) -> bool
    decreases a.len(),
{
    if b.len() == 0 {
        false
    } else if a.len() == 0 {
        true
    } else if a[0] != b[0] {
        (a[0] as u32) < (b[0] as u32)
    } else {
        lex_lt(a.drop_first(), b.drop_first())
    }
}

/// The `<` operator of `str`. std orders strings lexicographically by their
/// UTF-8 bytes, which is the order of their code points; the contract states
/// that order over the views.
#[verifier::external_body]
pub(crate) fn str_less(a: &str, b: &str) -> (r: bool)
    ensures
        r == lex_lt(a@, b@),
{
    a < b
}

/// The characters of `s`, in order.
pub fn chars_of(s: &str) -> (r: Vec<char>)
    ensures
        r@ == s@,
{
    let mut out: Vec<char> = Vec::new();
    for c in it: s.chars()
        invariant
            out@ == it.seq().take(it.index() as int),
            it.seq() == s@,
    {
        out.push(c);
    }
    out
}

/// The string made of `v[from..to]`.
pub fn text_between(v: &Vec<char>, from: usize, to: usize) -> (r: String)
    requires
        from <= to <= v.len(),
    ensures
        r@ == v@.subrange(from as int, to as int),
{
    let mut out = String::new();
    let mut i: usize = from;
    while i < to
        invariant
            from <= i <= to <= v.len(),
            out@ == v@.subrange(from as int, i as int),
        decreases to - i,
    {
        out.push(v[i]);
        i += 1;
        assert(v@.subrange(from as int, i as int) == v@.subrange(from as int, i - 1).push(
            v@[i - 1],
        ));
    }
    out
}

/// The character that stands for the digit `d` (0 to 15, lower case).
pub open spec fn digit_char(d: int) -> char {
    if d == 0 {
        '0'
    } else if d == 1 {
        '1'
    } else if d == 2 {
        '2'
    } else if d == 3 {
        '3'
    } else if d == 4 {
        '4'
    } else if d == 5 {
        '5'
    } else if d == 6 {
        '6'
    } else if d == 7 {
        '7'
    } else if d == 8 {
        '8'
    } else if d == 9 {
        '9'
    } else if d == 10 {
        'a'
    } else if d == 11 {
        'b'
    } else if d == 12 {
        'c'
    } else if d == 13 {
        'd'
    } else if d == 14 {
        'e'
    } else {
        'f'
    }
}

/// The digits of `n` in the given base (2 to 16), most significant first,
/// without leading zeros; zero is the single digit `0`.
pub open spec fn digits(n: nat, base: nat) -> Seq<char>
    recommends
        2 <= base <= 16,
    decreases n,
{
    if base < 2 || n < base {
        seq![digit_char(n as int)]
    } else {
        proof {
            vstd::arithmetic::div_mod::lemma_div_decreases(n as int, base as int);
        }
        digits(n / base, base).push(digit_char((n % base) as int))
    }
}

/// `s` with zeros put in front until it is `width` characters long.
pub open spec fn zero_pad(s: Seq<char>, width: nat) -> Seq<char> {
    if s.len() >= width {
        s
    } else {
        Seq::new((width - s.len()) as nat, |i: int| '0') + s
    }
}

/// Decimal text of `n`, zero-padded to `width` characters; a minus sign, where
/// there is one, comes first and counts towards the width.
pub open spec fn padded_decimal(n: int, width: nat) -> Seq<char> {
    if n < 0 {
        seq!['-'] + zero_pad(digits((-n) as nat, 10), if width > 0 {
            (width - 1) as nat
        } else {
            0
        })
    } else {
        zero_pad(digits(n as nat, 10), width)
    }
}

fn digit_of(d: u64) -> (c: char)
    requires
        d < 16,
    ensures
        c == digit_char(d as int),
{
    if d == 0 {
        '0'
    } else if d == 1 {
        '1'
    } else if d == 2 {
        '2'
    } else if d == 3 {
        '3'
    } else if d == 4 {
        '4'
    } else if d == 5 {
        '5'
    } else if d == 6 {
        '6'
    } else if d == 7 {
        '7'
    } else if d == 8 {
        '8'
    } else if d == 9 {
        '9'
    } else if d == 10 {
        'a'
    } else if d == 11 {
        'b'
    } else if d == 12 {
        'c'
    } else if d == 13 {
        'd'
    } else if d == 14 {
        'e'
    } else {
        'f'
    }
}

/// Appends the digits of `n` in `base` to `out`.
fn push_digits(out: &mut Vec<char>, n: u64, base: u64)
    requires
        2 <= base <= 16,
    ensures
        final(out)@ == old(out)@ + digits(n as nat, base as nat),
    decreases n,
{
    if n < base {
        out.push(digit_of(n));
        assert(final(out)@ =~= old(out)@ + digits(n as nat, base as nat));
    } else {
        proof {
            vstd::arithmetic::div_mod::lemma_div_decreases(n as int, base as int);
        }
        push_digits(out, n / base, base);
        out.push(digit_of(n % base));
        assert(out@ =~= old(out)@ + digits(n as nat, base as nat));
    }
}

/// The string made of `width - body.len()` zeros, where there are any, and
/// then of `body`.
fn zero_padded(body: &Vec<char>, width: usize) -> (r: String)
    ensures
        r@ == zero_pad(body@, width as nat),
{
    let mut out = String::new();
    let mut i: usize = body.len();
    while i < width
        invariant
            body.len() <= i,
            i <= width || i == body.len(),
            out@ == Seq::new((i - body.len()) as nat, |j: int| '0'),
        decreases width - i,
    {
        out.push('0');
        i += 1;
        assert(out@ =~= Seq::new((i - body.len()) as nat, |j: int| '0'));
    }
    let rest = text_between(body, 0, body.len());
    out.append(rest.as_str());
    assert(body@.subrange(0, body.len() as int) == body@);
    assert(out@ =~= zero_pad(body@, width as nat));
    out
}

/// Text of `n` in `base`, zero-padded to `width` characters.
pub fn render_uint(n: u64, base: u64, width: usize) -> (r: String)
    requires
        2 <= base <= 16,
    ensures
        r@ == zero_pad(digits(n as nat, base as nat), width as nat),
{
    let mut ds: Vec<char> = Vec::new();
    push_digits(&mut ds, n, base);
    assert(ds@ =~= digits(n as nat, base as nat));
    zero_padded(&ds, width)
}

/// Decimal text of `n`, zero-padded to `width` characters, sign first.
pub fn render_int(n: i64, width: usize) -> (r: String)
    ensures
        r@ == padded_decimal(n as int, width as nat),
{
    let mut ds: Vec<char> = Vec::new();
    if n < 0 {
        let magnitude: u64 = if n == i64::MIN {
            9223372036854775808u64
        } else {
            (-n) as u64
        };
        push_digits(&mut ds, magnitude, 10);
        assert(ds@ =~= digits((-n) as nat, 10));
        let inner: usize = if width > 0 {
            width - 1
        } else {
            0
        };
        let body = zero_padded(&ds, inner);
        let mut out = String::new();
        out.push('-');
        out.append(body.as_str());
        assert(out@ =~= padded_decimal(n as int, width as nat));
        out
    } else {
        push_digits(&mut ds, n as u64, 10);
        assert(ds@ =~= digits(n as nat, 10));
        zero_padded(&ds, width)
    }
}

/// `a` followed by `b`.
pub fn joined(a: &str, b: &str) -> (r: String)
    ensures
        r@ == a@ + b@,
{
    let mut out = a.to_owned();
    out.append(b);
    out
}

/// Whether `c` is white space: one of the code points with the Unicode
/// property `White_Space`.
pub open spec fn is_space(c: char) -> bool {
    let u = c as u32;
    (0x09 <= u <= 0x0d) || u == 0x20 || u == 0x85 || u == 0xa0 || u == 0x1680 || (0x2000 <= u
        <= 0x200a) || u == 0x2028 || u == 0x2029 || u == 0x202f || u == 0x205f || u == 0x3000
}

/// Whether `c` is white space.
pub fn char_is_space(c: char) -> (r: bool)
    ensures
        r == is_space(c),
{
    let u = c as u32;
    (0x09 <= u && u <= 0x0d) || u == 0x20 || u == 0x85 || u == 0xa0 || u == 0x1680 || (0x2000 <= u
        && u <= 0x200a) || u == 0x2028 || u == 0x2029 || u == 0x202f || u == 0x205f || u == 0x3000
}

/// How many characters of white space `s` starts with.
pub open spec fn leading_spaces(s: Seq<char>) -> int
    decreases s.len(),
{
    if s.len() > 0 && is_space(s[0]) {
        1 + leading_spaces(s.drop_first())
    } else {
        0
    }
}

/// How many characters of white space `s` ends with.
pub open spec fn trailing_spaces(s: Seq<char>) -> int
    decreases s.len(),
{
    if s.len() > 0 && is_space(s.last()) {
        1 + trailing_spaces(s.drop_last())
    } else {
        0
    }
}

/// `s` without the white space at its start and at its end.
pub open spec fn trimmed(s: Seq<char>) -> Seq<char> {
    let from = leading_spaces(s);
    if from == s.len() {
        Seq::empty()
    } else {
        s.subrange(from, s.len() - trailing_spaces(s))
    }
}

/// What `leading_spaces` counts.
pub proof fn lemma_leading_spaces(s: Seq<char>)
    ensures
        0 <= leading_spaces(s) <= s.len(),
        forall|j: int| 0 <= j < leading_spaces(s) ==> is_space(s[j]),
        leading_spaces(s) < s.len() ==> !is_space(s[leading_spaces(s)]),
    decreases s.len(),
{
    if s.len() > 0 && is_space(s[0]) {
        let rest = s.drop_first();
        lemma_leading_spaces(rest);
        assert forall|j: int| 0 <= j < leading_spaces(s) implies is_space(s[j]) by {
            if j > 0 {
                assert(s[j] == rest[j - 1]);
            }
        }
    }
}

/// What `trailing_spaces` counts.
pub proof fn lemma_trailing_spaces(s: Seq<char>)
    ensures
        0 <= trailing_spaces(s) <= s.len(),
        forall|j: int| s.len() - trailing_spaces(s) <= j < s.len() ==> is_space(s[j]),
        trailing_spaces(s) < s.len() ==> !is_space(s[s.len() - trailing_spaces(s) - 1]),
    decreases s.len(),
{
    if s.len() > 0 && is_space(s.last()) {
        let rest = s.drop_last();
        lemma_trailing_spaces(rest);
        assert forall|j: int| s.len() - trailing_spaces(s) <= j < s.len() implies is_space(
            s[j],
        ) by {
            if j < s.len() - 1 {
                assert(s[j] == rest[j]);
            }
        }
    }
}

/// A run of white space at the start of `s` that ends before a character of
/// another kind, or with `s`, is all the white space `s` starts with.
pub proof fn lemma_leading_spaces_is(s: Seq<char>, n: int)
    requires
        0 <= n <= s.len(),
        forall|j: int| 0 <= j < n ==> is_space(s[j]),
        n < s.len() ==> !is_space(s[n]),
    ensures
        leading_spaces(s) == n,
{
    lemma_leading_spaces(s);
}

/// The counterpart of `lemma_leading_spaces_is` for the end of `s`.
pub proof fn lemma_trailing_spaces_is(s: Seq<char>, n: int)
    requires
        0 <= n <= s.len(),
        forall|j: int| s.len() - n <= j < s.len() ==> is_space(s[j]),
        n < s.len() ==> !is_space(s[s.len() - n - 1]),
    ensures
        trailing_spaces(s) == n,
{
    lemma_trailing_spaces(s);
}

/// `s` without the white space around it.
pub fn trim_text(s: &str) -> (r: String)
    ensures
        r@ == trimmed(s@),
{
    let chars = chars_of(s);
    let mut from: usize = 0;
    while from < chars.len() && char_is_space(chars[from])
        invariant
            from <= chars.len(),
            forall|j: int| 0 <= j < from ==> is_space(chars@[j]),
        decreases chars.len() - from,
    {
        from += 1;
    }
    proof {
        lemma_leading_spaces_is(chars@, from as int);
    }
    if from == chars.len() {
        return String::new();
    }
    let mut to: usize = chars.len();
    while to > from && char_is_space(chars[to - 1])
        invariant
            from <= to <= chars.len(),
            forall|j: int| to <= j < chars.len() ==> is_space(chars@[j]),
        decreases to,
    {
        to -= 1;
    }
    proof {
        lemma_trailing_spaces_is(chars@, chars.len() - to);
    }
    text_between(&chars, from, to)
}

/// Whether `s` holds nothing but white space.
pub fn is_blank(s: &str) -> (r: bool)
    ensures
        r == (trimmed(s@).len() == 0),
{
    let t = trim_text(s);
    t.as_str().is_empty()
}

} // verus!
