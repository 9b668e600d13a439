//! Decimal ASCII text for unsigned numbers.

use vstd::prelude::*;

verus! {

/// The ASCII code of the digit zero.
pub const ASCII_ZERO: u8 = 48;

/// The ASCII character for the digit `d`.
pub open spec fn digit(d: nat) -> u8
    recommends
        d < 10,
{
    (ASCII_ZERO + d) as u8
}

/// The decimal text of `n`: its digits from the most significant to the
/// least, without leading zeros, and the single digit `0` for zero.
pub open spec fn decimal(n: nat) -> Seq<u8>
    decreases n,
{
    if n < 10 {
        seq![digit(n)]
    } else {
        decimal(n / 10).push(digit(n % 10))
    }
}

/// The number that a text of decimal digits stands for.
pub open spec fn decimal_value(text: Seq<u8>) -> nat
    decreases text.len(),
{
    if text.len() == 0 {
        0
    } else {
        (10 * decimal_value(text.drop_last()) + (text.last() - ASCII_ZERO)) as nat
    }
}

/// Appends the decimal text of `value` to `out`.
pub fn push_decimal(out: &mut Vec<u8>, value: u16)
    ensures
        final(out)@ == old(out)@ + decimal(value as nat),
    decreases value,
{
    if value >= 10 {
        push_decimal(out, value / 10);
    }
    let low: u16 = value % 10;
    out.push(ASCII_ZERO + low as u8);
    assert(out@ =~= old(out)@ + decimal(value as nat));
}

/// Decimal text holds nothing but digits, and its first digit is zero only
/// where the number is zero.
pub proof fn lemma_decimal_is_digits(n: nat)
    ensures
        decimal(n).len() >= 1,
        forall|i: int| 0 <= i < decimal(n).len() ==> ASCII_ZERO <= #[trigger] decimal(n)[i] <= ASCII_ZERO + 9,
        decimal(n)[0] == ASCII_ZERO <==> n == 0,
    decreases n,
{
    if n >= 10 {
        lemma_decimal_is_digits(n / 10);
    }
}

/// Decimal text stands for the number it was made from, so that different
/// numbers have different texts.
pub proof fn lemma_decimal_value(n: nat)
    ensures
        decimal_value(decimal(n)) == n,
    decreases n,
{
    let text = decimal(n);
    if n >= 10 {
        lemma_decimal_value(n / 10);
        assert(text.drop_last() =~= decimal(n / 10));
        assert(text.last() == digit(n % 10));
    } else {
        assert(text.drop_last() =~= Seq::<u8>::empty());
        assert(decimal_value(text.drop_last()) == 0);
        assert(text.last() == digit(n));
    }
}

/// The decimal text of a number has as many digits as the number's size
/// asks for: one below ten, two below a hundred, and so on.
pub proof fn lemma_decimal_len(n: nat)
    ensures
        n < 10 ==> decimal(n).len() == 1,
        10 <= n < 100 ==> decimal(n).len() == 2,
        100 <= n < 1000 ==> decimal(n).len() == 3,
        1000 <= n < 10000 ==> decimal(n).len() == 4,
        10000 <= n < 100000 ==> decimal(n).len() == 5,
    decreases n,
{
    if n >= 10 {
        lemma_decimal_len(n / 10);
    }
}

} // verus!
