//! Human-readable renderings of byte counts and durations.
use vstd::prelude::*;
use vstd::string::*;

verus! {

/// The character of a digit below sixteen, lower case for ten and above.
pub open spec fn digit_char(d: nat) -> char {
    seq!['0', '1', '2', '3', '4', '5', '6', '7', '8', '9', 'a', 'b', 'c', 'd', 'e', 'f'][d as int]
}

/// The decimal rendering of `n`, without leading zeros.
pub open spec fn decimal(n: nat) -> Seq<char>
    decreases n,
{
    if n < 10 {
        seq![digit_char(n)]
    } else {
        decimal(n / 10) + seq![digit_char(n % 10)]
    }
}

/// Appends the digit `d` (below sixteen) to `s`.
pub(crate) fn push_digit(s: &mut String, d: usize)
    requires
        d < 16,
    ensures
        final(s)@ == old(s)@ + seq![digit_char(d as nat)],
{
    let table = "0123456789abcdef";
    proof {
        reveal_strlit("0123456789abcdef");
    }
    let one = table.substring_char(d, d + 1);
    assert(one@ =~= seq![digit_char(d as nat)]);
    s.append(one);
}

/// Appends the decimal rendering of `n` to `s`.
pub(crate) fn push_decimal(s: &mut String, n: u128)
    ensures
        final(s)@ == old(s)@ + decimal(n as nat),
    decreases n,
{
    if n >= 10 {
        push_decimal(s, n / 10);
    }
    push_digit(s, (n % 10) as usize);
    assert(final(s)@ =~= old(s)@ + decimal(n as nat));
}

/// The power of 1024 by which a count is divided to reach unit `k`.
pub open spec fn unit_divisor(k: nat) -> nat {
    if k == 0 {
        1
    } else if k == 1 {
        1024
    } else if k == 2 {
        1048576
    } else if k == 3 {
        1073741824
    } else {
        1099511627776
    }
}

/// The unit a count of `n` bytes is shown in: 0 for B up to 4 for TB, the
/// largest unit whose divisor does not exceed `n`.
pub open spec fn unit_index(n: nat) -> nat {
    if n < 1024 {
        0
    } else if n < 1048576 {
        1
    } else if n < 1073741824 {
        2
    } else if n < 1099511627776 {
        3
    } else {
        4
    }
}

/// The name of unit `k`.
pub open spec fn unit_name(k: nat) -> Seq<char> {
    if k == 0 {
        seq!['B']
    } else if k == 1 {
        seq!['K', 'B']
    } else if k == 2 {
        seq!['M', 'B']
    } else if k == 3 {
        seq!['G', 'B']
    } else {
        seq!['T', 'B']
    }
}

/// `num / den` rounded to the nearest integer, ties to the even one.
pub open spec fn round_half_even(num: nat, den: nat) -> nat
    recommends
        den > 0,
{
    let q = num / den;
    let r = num % den;
    if 2 * r > den || (2 * r == den && q % 2 == 1) {
        q + 1
    } else {
        q
    }
}

/// The rendering of a byte count: whole bytes below 1024, otherwise the count
/// in the largest unit up to TB with one decimal digit.
pub open spec fn bytes_text(n: nat) -> Seq<char> {
    let k = unit_index(n);
    if k == 0 {
        decimal(n) + seq![' '] + unit_name(0)
    } else {
        let tenths = round_half_even(n * 10, unit_divisor(k));
        decimal(tenths / 10) + seq!['.'] + decimal(tenths % 10) + seq![' '] + unit_name(k)
    }
}

/// The rendering of a duration in seconds: seconds alone below a minute,
/// minutes and seconds below an hour, otherwise hours and minutes.
pub open spec fn duration_text(s: nat) -> Seq<char> {
    if s < 60 {
        decimal(s) + seq!['s']
    } else if s < 3600 {
        decimal(s / 60) + seq!['m', ' '] + decimal(s % 60) + seq!['s']
    } else {
        decimal(s / 3600) + seq!['h', ' '] + decimal((s % 3600) / 60) + seq!['m']
    }
}

/// Appends literal `lit` to `s`.
fn push_text(s: &mut String, lit: &str)
    ensures
        final(s)@ == old(s)@ + lit@,
{
    s.append(lit);
}

/// Formats a byte count in B, KB, MB, GB or TB (steps of 1024). Bytes are
/// shown as a whole number, larger units with exactly one decimal digit.
pub fn format_bytes(bytes: u64) -> (r: String)
    ensures
        r@ == bytes_text(bytes as nat),
{
    let n = bytes as u128;
    let mut s = String::new();
    if n < 1024 {
        push_decimal(&mut s, n);
        proof {
            reveal_strlit(" B");
        }
        push_text(&mut s, " B");
        assert(s@ =~= bytes_text(bytes as nat));
        return s;
    }
    let (den, unit): (u128, &str) = if n < 1048576 {
        (1024, " KB")
    } else if n < 1073741824 {
        (1048576, " MB")
    } else if n < 1099511627776 {
        (1073741824, " GB")
    } else {
        (1099511627776, " TB")
    };
    proof {
        reveal_strlit(" KB");
        reveal_strlit(" MB");
        reveal_strlit(" GB");
        reveal_strlit(" TB");
    }
    let ghost k = unit_index(bytes as nat);
    assert(den as nat == unit_divisor(k));
    assert(unit@ =~= seq![' '] + unit_name(k));
    let num = n * 10;
    let q = num / den;
    let rem = num % den;
    proof {
        vstd::arithmetic::div_mod::lemma_mod_pos_bound(num as int, den as int);
        vstd::arithmetic::div_mod::lemma_div_is_ordered_by_denominator(num as int, 1, den as int);
    }
    let tenths = if 2 * rem > den || (2 * rem == den && q % 2 == 1) {
        q + 1
    } else {
        q
    };
    assert(tenths as nat == round_half_even(bytes as nat * 10, unit_divisor(k)));
    push_decimal(&mut s, tenths / 10);
    proof {
        reveal_strlit(".");
    }
    push_text(&mut s, ".");
    push_decimal(&mut s, tenths % 10);
    push_text(&mut s, unit);
    assert(s@ =~= bytes_text(bytes as nat));
    s
}

/// Formats a duration given in seconds as `45s`, `1m 30s` or `1h 1m`.
pub fn format_duration(seconds: u64) -> (r: String)
    ensures
        r@ == duration_text(seconds as nat),
{
    let n = seconds as u128;
    let mut s = String::new();
    proof {
        reveal_strlit("s");
        reveal_strlit("m ");
        reveal_strlit("h ");
        reveal_strlit("m");
    }
    if n < 60 {
        push_decimal(&mut s, n);
        push_text(&mut s, "s");
    } else if n < 3600 {
        push_decimal(&mut s, n / 60);
        push_text(&mut s, "m ");
        push_decimal(&mut s, n % 60);
        push_text(&mut s, "s");
    } else {
        push_decimal(&mut s, n / 3600);
        push_text(&mut s, "h ");
        push_decimal(&mut s, (n % 3600) / 60);
        push_text(&mut s, "m");
    }
    assert(s@ =~= duration_text(seconds as nat));
    s
}

} // verus!
