//! The size formatter: a byte count rendered as bytes, kilobytes,
//! megabytes or gigabytes with one truncated fractional digit.

use vstd::prelude::*;
use vstd::string::StringExecFns;

verus! {

/// The character for a single decimal digit.
pub open spec fn digit_char(d: nat) -> char {
    if d == 0 {
        '0'
    } else if d == 1 {
        '1'
    } else if d == 2 {
        '2'
    } else if d == 3 {
        '3'
    } else if d == 4 {
        '4'
    } else if d == 5 {
        '5'
    } else if d == 6 {
        '6'
    } else if d == 7 {
        '7'
    } else if d == 8 {
        '8'
    } else {
        '9'
    }
}

/// The decimal representation of `n`, most significant digit first,
/// with no leading zeros (a lone `0` for zero itself).
pub open spec fn dec_digits(n: nat) -> Seq<char>
    decreases n,
{
    if n < 10 {
        seq![digit_char(n)]
    } else {
        dec_digits(n / 10).push(digit_char(n % 10))
    }
}

/// The one-character string for the decimal digit `d`.
fn digit_str(d: u64) -> (s: &'static str)
    requires
        d < 10,
    ensures
        s@ == seq![digit_char(d as nat)],
{
    let s: &'static str = if d == 0 {
        "0"
    } else if d == 1 {
        "1"
    } else if d == 2 {
        "2"
    } else if d == 3 {
        "3"
    } else if d == 4 {
        "4"
    } else if d == 5 {
        "5"
    } else if d == 6 {
        "6"
    } else if d == 7 {
        "7"
    } else if d == 8 {
        "8"
    } else {
        "9"
    };
    proof {
        reveal_strlit("0");
        reveal_strlit("1");
        reveal_strlit("2");
        reveal_strlit("3");
        reveal_strlit("4");
        reveal_strlit("5");
        reveal_strlit("6");
        reveal_strlit("7");
        reveal_strlit("8");
        reveal_strlit("9");
        assert(s@ =~= seq![digit_char(d as nat)]);
    }
    s
}

/// Appends the decimal representation of `n` to `s`.
fn push_decimal(s: &mut String, n: u64)
    ensures
        final(s)@ == old(s)@ + dec_digits(n as nat),
    decreases n,
{
    if n >= 10 {
        push_decimal(s, n / 10);
    }
    s.append(digit_str(n % 10));
    proof {
        assert(s@ =~= old(s)@ + dec_digits(n as nat));
    }
}

/// The rendering used above the byte band: the whole-unit count, a dot,
/// and one fractional digit, which is the next digit of the decimal
/// representation (truncation, not rounding).
pub open spec fn band_chars(size: nat, divisor: nat) -> Seq<char> {
    dec_digits(size / divisor) + seq!['.', digit_char((size / (divisor / 10)) % 10)]
}

/// What `format_size` returns, as a sequence of characters. The thresholds
/// are strict: exactly 1000 stays in bytes, exactly one million in
/// kilobytes, exactly one billion in megabytes.
pub open spec fn spec_format_size(size: u64) -> Seq<char> {
    if size > 1_000_000_000 {
        band_chars(size as nat, 1_000_000_000) + " GB"@
    } else if size > 1_000_000 {
        band_chars(size as nat, 1_000_000) + " MB"@
    } else if size > 1000 {
        band_chars(size as nat, 1000) + " KB"@
    } else {
        dec_digits(size as nat) + " B"@
    }
}

/// Renders a byte count in the greatest unit whose strict threshold it
/// exceeds, with one truncated fractional digit (`4_200_000_000` gives
/// `"4.2 GB"`), or as a plain count of bytes when it is at most 1000.
pub fn format_size(size: u64) -> (s: String)
    ensures
        s@ == spec_format_size(size),
{
    let mut s = String::new();
    if size > 1_000_000_000 {
        push_decimal(&mut s, size / 1_000_000_000);
        s.append(".");
        s.append(digit_str(size / 100_000_000 % 10));
        s.append(" GB");
        proof {
            reveal_strlit(".");
            assert(s@ =~= spec_format_size(size));
        }
    } else if size > 1_000_000 {
        push_decimal(&mut s, size / 1_000_000);
        s.append(".");
        s.append(digit_str(size / 100_000 % 10));
        s.append(" MB");
        proof {
            reveal_strlit(".");
            assert(s@ =~= spec_format_size(size));
        }
    } else if size > 1000 {
        push_decimal(&mut s, size / 1000);
        s.append(".");
        s.append(digit_str(size / 100 % 10));
        s.append(" KB");
        proof {
            reveal_strlit(".");
            assert(s@ =~= spec_format_size(size));
        }
    } else {
        push_decimal(&mut s, size);
        s.append(" B");
        proof {
            assert(s@ =~= spec_format_size(size));
        }
    }
    s
}

/// In every band above bytes, the rendering is the whole-unit count, a
/// dot, then one fractional digit, and that digit is
/// `(size / (divisor / 10)) % 10` for the band's `divisor`: the next digit
/// of the decimal representation, truncated rather than rounded.
pub proof fn lemma_fractional_digit(size: u64, divisor: u64)
    requires
        (divisor == 1000 && 1000 < size <= 1_000_000) || (divisor == 1_000_000 && 1_000_000 < size
            <= 1_000_000_000) || (divisor == 1_000_000_000 && size > 1_000_000_000),
    ensures
        ({
            let whole = dec_digits(size as nat / divisor as nat);
            &&& spec_format_size(size)[whole.len() as int] == '.'
            &&& spec_format_size(size)[whole.len() as int + 1] == digit_char(
                (size as nat / (divisor as nat / 10)) % 10,
            )
        }),
{
}

/// `format_size` is pure: its result is a function of the byte count
/// alone, so two renderings of the same count are identical.
pub proof fn lemma_format_size_deterministic(size: u64, a: Seq<char>, b: Seq<char>)
    requires
        a == spec_format_size(size),
        b == spec_format_size(size),
    ensures
        a == b,
{
}

} // verus!
