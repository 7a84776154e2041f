//! Decimal rendering, right-alignment and small string utilities for the
//! fixed-width console columns and the metrics exposition text.

use vstd::prelude::*;
use vstd::string::StrSliceExecFns;
use vstd::string::StringExecFns;

verus! {

/// The character for a single decimal digit.
pub open spec fn spec_digit(d: int) -> char {
    if d == 0 {
        '0'
    } else if d == 1 {
        '1'
    } else if d == 2 {
        '2'
    } else if d == 3 {
        '3'
    } else if d == 4 {
        '4'
    } else if d == 5 {
        '5'
    } else if d == 6 {
        '6'
    } else if d == 7 {
        '7'
    } else if d == 8 {
        '8'
    } else {
        '9'
    }
}

/// The usual decimal rendering of a non-negative integer: most significant
/// digit first, no leading zeros (except for zero itself).
pub open spec fn spec_dec(n: int) -> Seq<char>
    decreases n,
{
    if n < 10 {
        seq![spec_digit(n)]
    } else {
        spec_dec(n / 10).push(spec_digit(n % 10))
    }
}

/// The decimal rendering of a signed integer: a leading minus sign where the
/// value is negative, the plain rendering otherwise.
pub open spec fn spec_dec_signed(n: int) -> Seq<char> {
    if n < 0 {
        seq!['-'] + spec_dec(-n)
    } else {
        spec_dec(n)
    }
}

/// A run of space characters.
pub open spec fn spec_spaces(n: int) -> Seq<char> {
    Seq::new(n as nat, |i: int| ' ')
}

/// `s` right-aligned in a field of `width` characters: space padding on the
/// left, and no truncation where `s` is already wider than the field.
pub open spec fn spec_pad_left(s: Seq<char>, width: int) -> Seq<char> {
    if s.len() >= width {
        s
    } else {
        spec_spaces(width - s.len()) + s
    }
}

/// How many times `c` occurs in `s`.
pub open spec fn count_char(s: Seq<char>, c: char) -> int
    decreases s.len(),
{
    if s.len() == 0 {
        0
    } else {
        count_char(s.drop_last(), c) + if s.last() == c {
            1int
        } else {
            0int
        }
    }
}

pub proof fn lemma_count_char_concat(a: Seq<char>, b: Seq<char>, c: char)
    ensures
        count_char(a + b, c) == count_char(a, c) + count_char(b, c),
    decreases b.len(),
{
    if b.len() == 0 {
        assert(a + b =~= a);
    } else {
        assert((a + b).drop_last() =~= a + b.drop_last());
        assert((a + b).last() == b.last());
        lemma_count_char_concat(a, b.drop_last(), c);
    }
}

pub proof fn lemma_count_char_absent(s: Seq<char>, c: char)
    requires
        forall|i: int| 0 <= i < s.len() ==> s[i] != c,
    ensures
        count_char(s, c) == 0,
    decreases s.len(),
{
    if s.len() > 0 {
        lemma_count_char_absent(s.drop_last(), c);
    }
}

pub proof fn lemma_count_char_single(c: char, d: char)
    ensures
        count_char(seq![c], d) == if c == d {
            1int
        } else {
            0int
        },
{
    let s = seq![c];
    assert(s.drop_last() =~= Seq::<char>::empty());
    assert(count_char(s.drop_last(), d) == 0);
    assert(s.last() == c);
}

/// No decimal rendering contains a character outside the ten digits; in
/// particular none contains a newline.
pub proof fn lemma_dec_no_newline(n: int)
    ensures
        count_char(spec_dec(n), '\n') == 0,
    decreases n,
{
    if n < 10 {
        lemma_count_char_single(spec_digit(n), '\n');
    } else {
        lemma_dec_no_newline(n / 10);
        assert(spec_dec(n) =~= spec_dec(n / 10) + seq![spec_digit(n % 10)]);
        lemma_count_char_concat(spec_dec(n / 10), seq![spec_digit(n % 10)], '\n');
        lemma_count_char_single(spec_digit(n % 10), '\n');
    }
}

/// Padding adds only spaces, so it never changes the count of any other
/// character.
pub proof fn lemma_pad_count(s: Seq<char>, width: int, c: char)
    requires
        c != ' ',
    ensures
        count_char(spec_pad_left(s, width), c) == count_char(s, c),
{
    if s.len() < width {
        lemma_count_char_absent(spec_spaces(width - s.len()), c);
        lemma_count_char_concat(spec_spaces(width - s.len()), s, c);
    }
}

/// `needle` occurs contiguously somewhere in `hay`.
pub open spec fn contains_seq(hay: Seq<char>, needle: Seq<char>) -> bool {
    exists|k: int|
        0 <= k && k + needle.len() <= hay.len() && #[trigger] hay.subrange(k, k + needle.len())
            == needle
}

pub proof fn lemma_contains_seq_self(s: Seq<char>)
    ensures
        contains_seq(s, s),
{
    assert(s.subrange(0, 0 + s.len() as int) =~= s);
    assert(0 <= 0 && 0 + s.len() <= s.len() && s.subrange(0, 0 + s.len() as int) == s);
}

pub proof fn lemma_contains_seq_concat_left(a: Seq<char>, b: Seq<char>, needle: Seq<char>)
    requires
        contains_seq(a, needle),
    ensures
        contains_seq(a + b, needle),
{
    let k: int = choose|k: int|
        0 <= k && k + needle.len() <= a.len() && #[trigger] a.subrange(k, k + needle.len())
            == needle;
    assert((a + b).subrange(k, k + needle.len() as int) =~= a.subrange(k, k + needle.len() as int));
    assert(0 <= k && k + needle.len() <= (a + b).len() && (a + b).subrange(
        k,
        k + needle.len() as int,
    ) == needle);
}

pub proof fn lemma_contains_seq_concat_right(a: Seq<char>, b: Seq<char>, needle: Seq<char>)
    requires
        contains_seq(b, needle),
    ensures
        contains_seq(a + b, needle),
{
    let k: int = choose|k: int|
        0 <= k && k + needle.len() <= b.len() && #[trigger] b.subrange(k, k + needle.len())
            == needle;
    let m: int = a.len() + k;
    assert((a + b).subrange(m as int, m + needle.len()) =~= b.subrange(k, k + needle.len() as int));
    assert(0 <= m && m + needle.len() <= (a + b).len() && (a + b).subrange(
        m as int,
        m + needle.len(),
    ) == needle);
}

fn digit_str(d: u64) -> (r: &'static str)
    requires
        d < 10,
    ensures
        r@ == seq![spec_digit(d as int)],
{
    proof {
        reveal_strlit("0");
        reveal_strlit("1");
        reveal_strlit("2");
        reveal_strlit("3");
        reveal_strlit("4");
        reveal_strlit("5");
        reveal_strlit("6");
        reveal_strlit("7");
        reveal_strlit("8");
        reveal_strlit("9");
    }
    let r = match d {
        0 => "0",
        1 => "1",
        2 => "2",
        3 => "3",
        4 => "4",
        5 => "5",
        6 => "6",
        7 => "7",
        8 => "8",
        _ => "9",
    };
    proof {
        assert(r@ =~= seq![spec_digit(d as int)]);
    }
    r
}

/// Renders an unsigned integer in decimal, exactly as `spec_dec` describes.
pub fn dec_u64(n: u64) -> (r: String)
    ensures
        r@ == spec_dec(n as int),
    decreases n,
{
    if n < 10 {
        String::from_str(digit_str(n))
    } else {
        let mut s = dec_u64(n / 10);
        s.append(digit_str(n % 10));
        proof {
            assert(s@ =~= spec_dec(n as int));
        }
        s
    }
}

/// Renders a signed integer in decimal, exactly as `spec_dec_signed`
/// describes.
pub fn dec_i64(n: i64) -> (r: String)
    ensures
        r@ == spec_dec_signed(n as int),
{
    if n >= 0 {
        dec_u64(n as u64)
    } else {
        // Negate without overflowing on the smallest value.
        let magnitude: u64 = ((-(n + 1)) as u64) + 1;
        proof {
            reveal_strlit("-");
        }
        let mut s = String::from_str("-");
        s.append(dec_u64(magnitude).as_str());
        proof {
            assert(s@ =~= spec_dec_signed(n as int));
        }
        s
    }
}

/// Right-aligns `s` in a field of `width` characters, exactly as
/// `spec_pad_left` describes.
pub fn pad_left(s: &str, width: usize) -> (r: String)
    ensures
        r@ == spec_pad_left(s@, width as int),
{
    let n: usize = s.unicode_len();
    if n >= width {
        s.to_owned()
    } else {
        let pad: usize = width - n;
        let mut out = String::new();
        let mut i: usize = 0;
        proof {
            reveal_strlit(" ");
        }
        while i < pad
            invariant
                i <= pad,
                out@ =~= spec_spaces(i as int),
                " "@ == seq![' '],
            decreases pad - i,
        {
            out.append(" ");
            proof {
                assert(out@ =~= spec_spaces(i + 1));
            }
            i = i + 1;
        }
        out.append(s);
        proof {
            assert(out@ =~= spec_pad_left(s@, width as int));
        }
        out
    }
}

/// Character-for-character string equality, reflected into the views.
pub fn str_eq(a: &str, b: &str) -> (r: bool)
    ensures
        r == (a@ == b@),
{
    let sa = a.to_owned();
    let sb = b.to_owned();
    sa == sb
}

} // verus!
