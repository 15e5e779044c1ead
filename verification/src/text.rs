//! Decimal numbers as text.

use vstd::arithmetic::div_mod::lemma_div_denominator;
use vstd::arithmetic::power::{lemma_pow_positive, pow};
use vstd::prelude::*;
use vstd::string::*;

verus! {

/// The digits, each at the index of its value.
pub const DIGITS: &'static str = "0123456789";

/// `n` in decimal, without leading zeros.
pub open spec fn decimal(n: nat) -> Seq<char>
    decreases n,
{
    if n < 10 {
        seq![DIGITS@[n as int]]
    } else {
        decimal(n / 10).push(DIGITS@[(n % 10) as int])
    }
}

/// `n` in decimal, with a minus sign where it is negative.
pub open spec fn signed_decimal(n: int) -> Seq<char> {
    if n < 0 {
        "-"@ + decimal((-n) as nat)
    } else {
        decimal(n as nat)
    }
}

/// Appends `n` in decimal to `out`.
pub fn push_decimal(out: &mut String, n: u64)
    ensures
        final(out)@ == old(out)@ + decimal(n as nat),
    decreases n,
{
    proof {
        reveal_strlit("0123456789");
    }
    if n >= 10 {
        push_decimal(out, n / 10);
    }
    let digit: usize = (n % 10) as usize;
    out.append(DIGITS.substring_ascii(digit, digit + 1));
}

/// Appends `n` in decimal to `out`, with a minus sign where it is negative.
pub fn push_signed_decimal(out: &mut String, n: i64)
    ensures
        final(out)@ == old(out)@ + signed_decimal(n as int),
{
    if n < 0 {
        out.append("-");
        push_decimal(out, (-(n as i128)) as u64);
    } else {
        push_decimal(out, n as u64);
    }
}

/// The digit at each place is the digit of that place: the one that stands `i`
/// places before the last is that of the `i`-th power of ten.
pub proof fn law_digits_stand_at_their_places(n: nat, i: nat)
    requires
        i < decimal(n).len(),
    ensures
        decimal(n)[decimal(n).len() - 1 - i] as int == '0' as int + (n as int / pow(10, i)) % 10,
    decreases n,
{
    reveal(pow);
    lemma_digit(n % 10);
    if i > 0 {
        assert(n >= 10);
        let place: nat = (i - 1) as nat;
        law_digits_stand_at_their_places(n / 10, place);
        lemma_pow_positive(10, place);
        lemma_div_denominator(n as int, 10, pow(10, place));
    }
}

/// There are as many digits as the number needs: one at least, and a first digit
/// that is not zero where there are more.
pub proof fn law_digits_are_as_many_as_needed(n: nat)
    ensures
        decimal(n).len() >= 1,
        n < pow(10, decimal(n).len()),
        decimal(n).len() > 1 ==> pow(10, (decimal(n).len() - 1) as nat) <= n,
    decreases n,
{
    reveal(pow);
    assert(pow(10, 1) == 10 * pow(10, 0));
    if n >= 10 {
        law_digits_are_as_many_as_needed(n / 10);
        let len: nat = decimal(n / 10).len();
        assert(pow(10, len + 1) == 10 * pow(10, len));
        assert(pow(10, len) == 10 * pow(10, (len - 1) as nat));
    }
}

/// A number in decimal holds nothing but digits.
pub proof fn law_decimals_are_digits(n: nat, i: int)
    requires
        0 <= i < decimal(n).len(),
    ensures
        '0' <= decimal(n)[i] <= '9',
{
    law_digits_stand_at_their_places(n, (decimal(n).len() - 1 - i) as nat);
}

/// Different numbers are written differently.
pub proof fn law_decimals_are_distinct(a: nat, b: nat)
    requires
        decimal(a) == decimal(b),
    ensures
        a == b,
    decreases a,
{
    law_digits_are_as_many_as_needed(a);
    law_digits_are_as_many_as_needed(b);
    lemma_digit(a % 10);
    lemma_digit(b % 10);
    assert(decimal(a).last() == DIGITS@[(a % 10) as int]);
    assert(decimal(b).last() == DIGITS@[(b % 10) as int]);
    if a >= 10 && b >= 10 {
        assert(decimal(a).drop_last() =~= decimal(a / 10));
        assert(decimal(b).drop_last() =~= decimal(b / 10));
        law_decimals_are_distinct(a / 10, b / 10);
    } else {
        if a >= 10 {
            law_digits_are_as_many_as_needed(a / 10);
        }
        if b >= 10 {
            law_digits_are_as_many_as_needed(b / 10);
        }
    }
}

/// A negative number is written as its opposite behind a minus sign, any other
/// number without a sign.
pub proof fn law_the_sign_comes_first(n: nat)
    ensures
        signed_decimal(n as int) == decimal(n),
        n > 0 ==> signed_decimal(-n) == seq!['-'] + decimal(n),
{
    reveal_strlit("-");
    assert("-"@ =~= seq!['-']);
}

/// Different numbers are written differently, with a sign or without.
pub proof fn law_signed_decimals_are_distinct(a: int, b: int)
    requires
        signed_decimal(a) == signed_decimal(b),
    ensures
        a == b,
{
    let m: nat = (if a < 0 { -a } else { a }) as nat;
    let n: nat = (if b < 0 { -b } else { b }) as nat;
    law_the_sign_comes_first(m);
    law_the_sign_comes_first(n);
    law_digits_are_as_many_as_needed(m);
    law_digits_are_as_many_as_needed(n);
    law_decimals_are_digits(m, 0);
    law_decimals_are_digits(n, 0);
    if a < 0 {
        assert(signed_decimal(a)[0] == '-');
        assert(signed_decimal(a).drop_first() =~= decimal(m));
    }
    if b < 0 {
        assert(signed_decimal(b)[0] == '-');
        assert(signed_decimal(b).drop_first() =~= decimal(n));
    }
    law_decimals_are_distinct(m, n);
}

proof fn lemma_digit(k: nat)
    requires
        k < 10,
    ensures
        DIGITS@[k as int] as int == '0' as int + k,
{
    reveal_strlit("0123456789");
    assert(DIGITS@[0] == '0' && DIGITS@[1] == '1' && DIGITS@[2] == '2' && DIGITS@[3] == '3');
    assert(DIGITS@[4] == '4' && DIGITS@[5] == '5' && DIGITS@[6] == '6' && DIGITS@[7] == '7');
    assert(DIGITS@[8] == '8' && DIGITS@[9] == '9');
}

} // verus!
