//! Plain-text building blocks: decimal rendering of integers and
//! fixed-width alignment of cell text.

use vstd::prelude::*;
use vstd::string::StrSliceExecFns;
use vstd::string::StringExecFns;

verus! {

/// The decimal digit character for one digit value.
pub open spec fn dec_digit(d: int) -> char {
    if d == 0 {
        '0'
    } else if d == 1 {
        '1'
    } else if d == 2 {
        '2'
    } else if d == 3 {
        '3'
    } else if d == 4 {
        '4'
    } else if d == 5 {
        '5'
    } else if d == 6 {
        '6'
    } else if d == 7 {
        '7'
    } else if d == 8 {
        '8'
    } else {
        '9'
    }
}

/// Decimal rendering of a non-negative integer, most significant digit
/// first, without leading zeroes.
pub open spec fn dec_seq_nat(n: int) -> Seq<char>
    decreases n,
{
    if n <= 9 {
        seq![dec_digit(n)]
    } else {
        dec_seq_nat(n / 10).push(dec_digit(n % 10))
    }
}

/// Decimal rendering of an integer, with a leading minus sign when
/// negative.
pub open spec fn dec_seq_int(n: int) -> Seq<char> {
    if n < 0 {
        seq!['-'] + dec_seq_nat(-n)
    } else {
        dec_seq_nat(n)
    }
}

fn append_digit(s: &mut String, d: u64)
    requires
        d <= 9,
    ensures
        final(s)@ == old(s)@.push(dec_digit(d as int)),
{
    let lit: &str = if d == 0 {
        "0"
    } else if d == 1 {
        "1"
    } else if d == 2 {
        "2"
    } else if d == 3 {
        "3"
    } else if d == 4 {
        "4"
    } else if d == 5 {
        "5"
    } else if d == 6 {
        "6"
    } else if d == 7 {
        "7"
    } else if d == 8 {
        "8"
    } else {
        "9"
    };
    proof {
        reveal_strlit("0");
        reveal_strlit("1");
        reveal_strlit("2");
        reveal_strlit("3");
        reveal_strlit("4");
        reveal_strlit("5");
        reveal_strlit("6");
        reveal_strlit("7");
        reveal_strlit("8");
        reveal_strlit("9");
        assert(lit@ =~= seq![dec_digit(d as int)]);
    }
    s.append(lit);
    proof {
        assert(s@ =~= old(s)@.push(dec_digit(d as int)));
    }
}

/// Append the decimal rendering of `n`.
pub fn append_u64_decimal(s: &mut String, n: u64)
    ensures
        final(s)@ == old(s)@ + dec_seq_nat(n as int),
    decreases n,
{
    if n > 9 {
        append_u64_decimal(s, n / 10);
        append_digit(s, n % 10);
        proof {
            assert(s@ =~= old(s)@ + dec_seq_nat(n as int));
        }
    } else {
        append_digit(s, n);
        proof {
            assert(s@ =~= old(s)@ + dec_seq_nat(n as int));
        }
    }
}

/// Decimal rendering of an unsigned number.
pub fn u64_to_string(n: u64) -> (r: String)
    ensures
        r@ == dec_seq_nat(n as int),
{
    let mut s = String::new();
    append_u64_decimal(&mut s, n);
    proof {
        assert(s@ =~= dec_seq_nat(n as int));
    }
    s
}

/// Decimal rendering of an unsigned number.
pub fn u32_to_string(n: u32) -> (r: String)
    ensures
        r@ == dec_seq_nat(n as int),
{
    u64_to_string(n as u64)
}

/// Append the decimal rendering of `n`, sign included.
pub fn append_i64_decimal(s: &mut String, n: i64)
    ensures
        final(s)@ == old(s)@ + dec_seq_int(n as int),
{
    if n >= 0 {
        append_u64_decimal(s, n as u64);
    } else {
        proof {
            reveal_strlit("-");
        }
        s.append("-");
        let mag: u64 = if n == i64::MIN {
            9223372036854775808u64
        } else {
            (-n) as u64
        };
        append_u64_decimal(s, mag);
        proof {
            assert(s@ =~= old(s)@ + dec_seq_int(n as int));
        }
    }
}

/// Decimal rendering of a signed number.
pub fn i64_to_string(n: i64) -> (r: String)
    ensures
        r@ == dec_seq_int(n as int),
{
    let mut s = String::new();
    append_i64_decimal(&mut s, n);
    proof {
        assert(s@ =~= dec_seq_int(n as int));
    }
    s
}

/// `n` spaces (none when `n` is negative).
pub open spec fn space_seq(n: int) -> Seq<char> {
    Seq::new(
        if n >= 0 {
            n as nat
        } else {
            0
        },
        |i: int| ' ',
    )
}

fn append_spaces(s: &mut String, n: usize)
    ensures
        final(s)@ == old(s)@ + space_seq(n as int),
{
    let mut i: usize = 0;
    proof {
        assert(s@ =~= s@ + space_seq(0));
    }
    while i < n
        invariant
            i <= n,
            s@ == old(s)@ + space_seq(i as int),
        decreases n - i,
    {
        proof {
            reveal_strlit(" ");
        }
        s.append(" ");
        proof {
            assert(s@ =~= old(s)@ + space_seq(i as int + 1));
        }
        i = i + 1;
    }
}

/// How a table cell's text sits inside its column.
#[derive(Debug, Clone, Copy, PartialEq, Eq, Structural)]
pub enum StringAlignment {
    Left,
    Centered,
    Right,
    Unaligned,
}

impl Default for StringAlignment {
    fn default() -> (r: Self)
        ensures
            r == StringAlignment::Unaligned,
    {
        StringAlignment::Unaligned
    }
}

/// Text padded with spaces on the right up to `width` characters; text at
/// least as wide as the column is kept whole.
pub open spec fn left_align_seq(s: Seq<char>, width: int) -> Seq<char> {
    if s.len() >= width {
        s
    } else {
        s + space_seq(width - s.len())
    }
}

/// Text padded with spaces on the left up to `width` characters.
pub open spec fn right_align_seq(s: Seq<char>, width: int) -> Seq<char> {
    if s.len() >= width {
        s
    } else {
        space_seq(width - s.len()) + s
    }
}

/// Text centred in `width` characters; an odd leftover space goes to the
/// right, as the standard formatter does it.
pub open spec fn center_align_seq(s: Seq<char>, width: int) -> Seq<char> {
    if s.len() >= width {
        s
    } else {
        let pad = width - s.len();
        space_seq(pad / 2) + s + space_seq(pad - pad / 2)
    }
}

/// Alignment of text in a column of the given width.
pub open spec fn align_seq(s: Seq<char>, width: int, alignment: StringAlignment) -> Seq<char> {
    match alignment {
        StringAlignment::Left => left_align_seq(s, width),
        StringAlignment::Centered => center_align_seq(s, width),
        StringAlignment::Right => right_align_seq(s, width),
        StringAlignment::Unaligned => s,
    }
}

/// Pad on the right to `width` characters.
pub fn left_align(s: &str, width: usize) -> (r: String)
    ensures
        r@ == left_align_seq(s@, width as int),
{
    let mut out = String::new();
    out.append(s);
    let n = s.unicode_len();
    if n < width {
        append_spaces(&mut out, width - n);
    }
    proof {
        assert(out@ =~= left_align_seq(s@, width as int));
    }
    out
}

/// Pad on the left to `width` characters.
pub fn right_align(s: &str, width: usize) -> (r: String)
    ensures
        r@ == right_align_seq(s@, width as int),
{
    let mut out = String::new();
    let n = s.unicode_len();
    if n < width {
        append_spaces(&mut out, width - n);
    }
    out.append(s);
    proof {
        assert(out@ =~= right_align_seq(s@, width as int));
    }
    out
}

/// Centre in `width` characters.
pub fn center_align(s: &str, width: usize) -> (r: String)
    ensures
        r@ == center_align_seq(s@, width as int),
{
    let mut out = String::new();
    let n = s.unicode_len();
    if n < width {
        let pad = width - n;
        append_spaces(&mut out, pad / 2);
        out.append(s);
        append_spaces(&mut out, pad - pad / 2);
    } else {
        out.append(s);
    }
    proof {
        assert(out@ =~= center_align_seq(s@, width as int));
    }
    out
}

/// Align per the given mode.
pub fn align(s: &str, width: usize, alignment: StringAlignment) -> (r: String)
    ensures
        r@ == align_seq(s@, width as int, alignment),
{
    match alignment {
        StringAlignment::Left => left_align(s, width),
        StringAlignment::Centered => center_align(s, width),
        StringAlignment::Right => right_align(s, width),
        StringAlignment::Unaligned => {
            let mut out = String::new();
            out.append(s);
            proof {
                assert(out@ =~= s@);
            }
            out
        },
    }
}

} // verus!
