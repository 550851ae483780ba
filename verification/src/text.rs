//! Building blocks for text: the characters of a string, plain text,
//! repeated characters and decimal numerals.

use vstd::prelude::*;
use vstd::string::*;

verus! {

/// `String::push` of the standard library: the character is added at the end
/// and nothing else changes.
pub assume_specification[ String::push ](s: &mut String, ch: char)
    ensures
        final(s)@ == old(s)@.push(ch),
;

/// The characters of a text, one by one.
pub fn chars_of(s: &str) -> (chars: Vec<char>)
    ensures
        chars@ == s@,
{
    let mut chars: Vec<char> = Vec::new();
    let it = s.chars();
    for c in iter: it
        invariant
            iter.seq() == s@,
            chars@ == s@.take(iter.index()),
    {
        chars.push(c);
    }
    chars
}

/// The plain characters: those of ASCII and the full block. In a line each
/// of them takes one column, whatever stands beside it.
pub open spec fn plain_char(c: char) -> bool {
    c <= '\u{7f}' || c == '\u{2588}'
}

/// A text of plain characters.
pub open spec fn plain_text(s: Seq<char>) -> bool {
    forall|i: int| 0 <= i < s.len() ==> plain_char(#[trigger] s[i])
}

/// Whether `s` is plain.
pub fn is_plain_text(s: &str) -> (plain: bool)
    ensures
        plain == plain_text(s@),
{
    let it = s.chars();
    for c in iter: it
        invariant
            iter.seq() == s@,
            plain_text(s@.take(iter.index())),
    {
        if !(c <= '\u{7f}' || c == '\u{2588}') {
            return false;
        }
    }
    assert(s@.take(s@.len() as int) =~= s@);
    true
}

/// A text made of two is plain where both are.
pub proof fn plain_concat(a: Seq<char>, b: Seq<char>)
    ensures
        plain_text(a + b) <==> plain_text(a) && plain_text(b),
{
    let all = a + b;
    if plain_text(all) {
        assert forall|i: int| 0 <= i < a.len() implies plain_char(#[trigger] a[i]) by {
            assert(a[i] == all[i]);
        }
        assert forall|i: int| 0 <= i < b.len() implies plain_char(#[trigger] b[i]) by {
            assert(b[i] == all[a.len() + i]);
        }
    }
}

/// `n` copies of `c`.
pub open spec fn repeat(c: char, n: nat) -> Seq<char> {
    Seq::new(n, |i: int| c)
}

/// Appends `n` copies of `c`.
pub fn push_repeat(out: &mut String, c: char, n: usize)
    ensures
        final(out)@ == old(out)@ + repeat(c, n as nat),
{
    let mut i: usize = 0;
    while i < n
        invariant
            i <= n,
            out@ == old(out)@ + repeat(c, i as nat),
        decreases n - i,
    {
        out.push(c);
        i += 1;
    }
}

/// The character of a decimal digit; `'0'` outside `0..=9`.
pub open spec fn digit_char(d: int) -> char {
    if d == 1 {
        '1'
    } else if d == 2 {
        '2'
    } else if d == 3 {
        '3'
    } else if d == 4 {
        '4'
    } else if d == 5 {
        '5'
    } else if d == 6 {
        '6'
    } else if d == 7 {
        '7'
    } else if d == 8 {
        '8'
    } else if d == 9 {
        '9'
    } else {
        '0'
    }
}

/// The decimal numeral of `n`: most significant digit first, no sign, no
/// leading zero but for `0` itself.
pub open spec fn decimal(n: nat) -> Seq<char>
    decreases n,
{
    if n < 10 {
        seq![digit_char(n as int)]
    } else {
        decimal(n / 10).push(digit_char((n % 10) as int))
    }
}

/// Every numeral is plain.
pub proof fn decimal_plain(n: nat)
    ensures
        plain_text(decimal(n)),
    decreases n,
{
    if n >= 10 {
        decimal_plain(n / 10);
    }
}

fn digit_char_of(d: u64) -> (c: char)
    requires
        d < 10,
    ensures
        c == digit_char(d as int),
{
    if d == 1 {
        '1'
    } else if d == 2 {
        '2'
    } else if d == 3 {
        '3'
    } else if d == 4 {
        '4'
    } else if d == 5 {
        '5'
    } else if d == 6 {
        '6'
    } else if d == 7 {
        '7'
    } else if d == 8 {
        '8'
    } else if d == 9 {
        '9'
    } else {
        '0'
    }
}

/// Appends the decimal numeral of `n`.
pub fn push_decimal(out: &mut String, n: u64)
    ensures
        final(out)@ == old(out)@ + decimal(n as nat),
    decreases n,
{
    if n >= 10 {
        push_decimal(out, n / 10);
    }
    out.push(digit_char_of(n % 10));
}

} // verus!
