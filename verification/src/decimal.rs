//! Decimal text of unsigned integers, as the device reads coordinates.

use vstd::prelude::*;

verus! {

/// ASCII code of the digit `0`.
pub const ASCII_ZERO: u8 = 48;

/// The ASCII decimal text of `n`, most significant digit first, without
/// leading zeros (`0` itself is the single digit `0`).
pub open spec fn decimal_digits(n: nat) -> Seq<u8>
    decreases n,
{
    if n < 10 {
        seq![(48 + n) as u8]
    } else {
        decimal_digits(n / 10).push((48 + n % 10) as u8)
    }
}

/// The number that a run of ASCII digits denotes; the empty run denotes 0.
pub open spec fn decimal_value(text: Seq<u8>) -> nat
    decreases text.len(),
{
    if text.len() == 0 {
        0
    } else {
        (decimal_value(text.drop_last()) * 10 + (text.last() - 48)) as nat
    }
}

/// Every byte of a decimal text is an ASCII digit, the text is never empty,
/// and it starts with `0` only when the number is 0.
pub proof fn lemma_decimal_digits_shape(n: nat)
    ensures
        decimal_digits(n).len() >= 1,
        forall|i: int| 0 <= i < decimal_digits(n).len() ==> 48 <= #[trigger] decimal_digits(n)[i] <= 57,
        decimal_digits(n)[0] == 48 <==> n == 0,
    decreases n,
{
    if n >= 10 {
        lemma_decimal_digits_shape(n / 10);
    }
}

/// Reading a decimal text back gives the number it was written from, so two
/// different numbers never share a text.
pub proof fn lemma_decimal_round_trip(n: nat)
    ensures
        decimal_value(decimal_digits(n)) == n,
    decreases n,
{
    if n < 10 {
        let text = decimal_digits(n);
        assert(text.drop_last().len() == 0);
        assert(decimal_value(text.drop_last()) == 0);
    } else {
        lemma_decimal_round_trip(n / 10);
        let text = decimal_digits(n);
        assert(text.drop_last() =~= decimal_digits(n / 10));
    }
}

/// Appends the decimal text of `n` to `out`.
pub fn push_decimal(out: &mut Vec<u8>, n: u32)
    ensures
        final(out)@ == old(out)@ + decimal_digits(n as nat),
    decreases n,
{
    if n >= 10 {
        push_decimal(out, n / 10);
    }
    let digit: u8 = (n % 10) as u8;
    out.push(ASCII_ZERO + digit);
    proof {
        if n >= 10 {
            assert(out@ =~= old(out)@ + decimal_digits((n / 10) as nat).push((48 + n % 10) as u8));
        } else {
            assert(out@ =~= old(out)@ + seq![(48 + n) as u8]);
        }
    }
}

} // verus!
