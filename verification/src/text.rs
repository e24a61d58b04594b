//! Text as sequences of characters: the few operations on strings that the
//! rest of the crate is built from.

use vstd::prelude::*;

verus! {

/// The lower-case form of an ASCII capital; any other character itself.
pub open spec fn ascii_lower(c: char) -> char {
    if 'A' <= c && c <= 'Z' {
        ((c as u8 + 32) as u8) as char
    } else {
        c
    }
}

/// A text with each ASCII capital replaced by its lower-case form.
pub open spec fn ascii_lowercase(s: Seq<char>) -> Seq<char> {
    s.map_values(|c: char| ascii_lower(c))
}

/// The decimal digit for a number below ten.
pub open spec fn digit_char(d: nat) -> char {
    ((48 + d) as u8) as char
}

/// The decimal numeral of a natural number, without leading zeros.
pub open spec fn decimal(n: nat) -> Seq<char>
    decreases n,
{
    if n < 10 {
        seq![digit_char(n)]
    } else {
        decimal(n / 10).push(digit_char(n % 10))
    }
}

/// The number that a decimal numeral stands for.
pub open spec fn decimal_value(s: Seq<char>) -> nat
    decreases s.len(),
{
    if s.len() == 0 {
        0
    } else {
        (decimal_value(s.drop_last()) * 10 + (s.last() as nat - 48)) as nat
    }
}

/// A decimal numeral reads back as the number it was written for.
pub proof fn lemma_decimal_value(n: nat)
    ensures
        decimal_value(decimal(n)) == n,
    decreases n,
{
    if n < 10 {
        assert(decimal(n).drop_last() =~= Seq::<char>::empty());
        assert(decimal_value(decimal(n).drop_last()) == 0);
    } else {
        lemma_decimal_value(n / 10);
        assert(decimal(n).drop_last() =~= decimal(n / 10));
    }
}

/// Different numbers have different decimal numerals.
pub proof fn lemma_decimal_injective(a: nat, b: nat)
    requires
        decimal(a) == decimal(b),
    ensures
        a == b,
{
    lemma_decimal_value(a);
    lemma_decimal_value(b);
}

/// A decimal numeral is made of the digits `0` to `9`, and has at least
/// one.
pub proof fn lemma_decimal_digits(n: nat)
    ensures
        decimal(n).len() >= 1,
        forall|i: int| 0 <= i < decimal(n).len() ==> '0' <= #[trigger] decimal(n)[i] <= '9',
    decreases n,
{
    if n >= 10 {
        lemma_decimal_digits(n / 10);
    }
}

/// A text followed by a line feed.
pub open spec fn line(s: Seq<char>) -> Seq<char> {
    s.push('\n')
}

/// Whether a text is free of line feeds.
pub open spec fn one_line(s: Seq<char>) -> bool {
    forall|i: int| 0 <= i < s.len() ==> s[i] != '\n'
}

/// Two texts that begin with a line each and are the same begin with the
/// same line and go on in the same way.
pub proof fn lemma_first_line(a: Seq<char>, rest_a: Seq<char>, b: Seq<char>, rest_b: Seq<char>)
    requires
        one_line(a),
        one_line(b),
        line(a) + rest_a == line(b) + rest_b,
    ensures
        a == b,
        rest_a == rest_b,
{
    let whole_a = line(a) + rest_a;
    let whole_b = line(b) + rest_b;
    assert(whole_a[a.len() as int] == '\n');
    assert(whole_b[b.len() as int] == '\n');
    if a.len() < b.len() {
        assert(whole_b[a.len() as int] == b[a.len() as int]);
        assert(false);
    }
    if b.len() < a.len() {
        assert(whole_a[b.len() as int] == a[b.len() as int]);
        assert(false);
    }
    assert forall|i: int| 0 <= i < a.len() implies a[i] == b[i] by {
        assert(whole_a[i] == a[i]);
        assert(whole_b[i] == b[i]);
    }
    assert(a =~= b);
    assert(whole_a.len() == a.len() + 1 + rest_a.len());
    assert(whole_b.len() == b.len() + 1 + rest_b.len());
    assert forall|i: int| 0 <= i < rest_a.len() implies rest_a[i] == rest_b[i] by {
        assert(whole_a[a.len() + 1 + i] == rest_a[i]);
        assert(whole_b[b.len() + 1 + i] == rest_b[i]);
    }
    assert(rest_a =~= rest_b);
}

/// The characters of a string, in order.
pub fn chars_of(s: &str) -> (out: Vec<char>)
    ensures
        out@ == s@,
{
    let mut out: Vec<char> = Vec::new();
    for c in it: s.chars()
        invariant
            out@ == s@.take(it.index() as int),
            it.seq() == s@,
    {
        out.push(c);
    }
    out
}

/// Lower-cases one character as `ascii_lower` describes.
pub fn lower_char(c: char) -> (out: char)
    ensures
        out == ascii_lower(c),
{
    if c >= 'A' && c <= 'Z' {
        let b: u8 = c as u8;
        (b + 32) as char
    } else {
        c
    }
}

/// Tells whether `s` reads as `word`.
pub fn chars_eq(s: &Vec<char>, word: &str) -> (same: bool)
    ensures
        same == (s@ == word@),
{
    let w = chars_of(word);
    if s.len() != w.len() {
        return false;
    }
    let mut i: usize = 0;
    while i < s.len()
        invariant
            i <= s.len(),
            s.len() == w.len(),
            w@ == word@,
            forall|j: int| 0 <= j < i ==> s@[j] == w@[j],
        decreases s.len() - i,
    {
        if s[i] != w[i] {
            return false;
        }
        i += 1;
    }
    assert(s@ =~= word@);
    true
}

/// Tells whether `s`, with ASCII capitals lowered, reads as `word`.
pub fn eq_ignore_ascii_case(s: &Vec<char>, word: &str) -> (same: bool)
    ensures
        same == (ascii_lowercase(s@) == word@),
{
    let w = chars_of(word);
    if s.len() != w.len() {
        return false;
    }
    let mut i: usize = 0;
    while i < s.len()
        invariant
            i <= s.len(),
            s.len() == w.len(),
            w@ == word@,
            forall|j: int| 0 <= j < i ==> ascii_lower(s@[j]) == w@[j],
        decreases s.len() - i,
    {
        if lower_char(s[i]) != w[i] {
            assert(ascii_lowercase(s@)[i as int] != word@[i as int]);
            return false;
        }
        i += 1;
    }
    assert(ascii_lowercase(s@) =~= word@);
    true
}

/// Appends a text and a line feed.
pub fn append_line(out: &mut String, part: &str)
    ensures
        final(out)@ == old(out)@ + line(part@),
{
    proof {
        reveal_strlit("\n");
    }
    out.append(part);
    out.append("\n");
    assert(out@ =~= old(out)@ + line(part@));
}

/// The one-character string of a decimal digit.
fn digit_str(d: u64) -> (out: &'static str)
    requires
        d < 10,
    ensures
        out@ == seq![digit_char(d as nat)],
{
    proof {
        reveal_strlit("0");
        reveal_strlit("1");
        reveal_strlit("2");
        reveal_strlit("3");
        reveal_strlit("4");
        reveal_strlit("5");
        reveal_strlit("6");
        reveal_strlit("7");
        reveal_strlit("8");
        reveal_strlit("9");
    }
    let out = if d == 0 {
        "0"
    } else if d == 1 {
        "1"
    } else if d == 2 {
        "2"
    } else if d == 3 {
        "3"
    } else if d == 4 {
        "4"
    } else if d == 5 {
        "5"
    } else if d == 6 {
        "6"
    } else if d == 7 {
        "7"
    } else if d == 8 {
        "8"
    } else {
        "9"
    };
    assert(out@ =~= seq![digit_char(d as nat)]);
    out
}

/// Writes a number in decimal.
pub fn decimal_string(n: u64) -> (out: String)
    ensures
        out@ == decimal(n as nat),
    decreases n,
{
    if n < 10 {
        String::from_str(digit_str(n))
    } else {
        let mut out = decimal_string(n / 10);
        out.append(digit_str(n % 10));
        out
    }
}

} // verus!
