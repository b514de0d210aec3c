//! The one line a halting program prints: its top value in decimal.
use vstd::prelude::*;

verus! {

/// The decimal digits of `n` as ASCII bytes, most significant first, without
/// leading zeros (`0` is the single digit `'0'`).
pub open spec fn decimal_spec(n: nat) -> Seq<u8>
    decreases n,
{
    if n < 10 {
        seq![(48 + n) as u8]
    } else {
        decimal_spec(n / 10).push((48 + n % 10) as u8)
    }
}

/// The number that a string of ASCII decimal digits denotes.
pub open spec fn digits_value(d: Seq<u8>) -> nat
    decreases d.len(),
{
    if d.len() == 0 {
        0
    } else {
        digits_value(d.drop_last()) * 10 + (d.last() - 48) as nat
    }
}

pub open spec fn is_digit(c: u8) -> bool {
    48 <= c <= 57
}

/// `decimal_spec(n)` is a string of digits, with no leading zero but for `0`
/// itself, that denotes `n`.
pub proof fn lemma_decimal_denotes(n: nat)
    ensures
        decimal_spec(n).len() >= 1,
        forall|i: int| 0 <= i < decimal_spec(n).len() ==> is_digit(#[trigger] decimal_spec(n)[i]),
        decimal_spec(n)[0] == 48 ==> n == 0,
        digits_value(decimal_spec(n)) == n,
    decreases n,
{
    if n >= 10 {
        lemma_decimal_denotes(n / 10);
        let d = decimal_spec(n);
        assert(d.drop_last() =~= decimal_spec(n / 10));
        assert(d.last() - 48 == n % 10);
        assert((n / 10) * 10 + n % 10 == n);
    } else {
        assert(decimal_spec(n).drop_last() =~= Seq::<u8>::empty());
        assert(digits_value(Seq::<u8>::empty()) == 0);
    }
}

/// Appends the decimal digits of `n` to `out`.
fn push_decimal(n: u16, out: &mut Vec<u8>)
    ensures
        final(out)@ == old(out)@ + decimal_spec(n as nat),
    decreases n,
{
    if n >= 10 {
        push_decimal(n / 10, out);
    }
    out.push(48u8 + (n % 10) as u8);
    assert(out@ =~= old(out)@ + decimal_spec(n as nat));
}

/// The line printed on `HALT` with `v` on top of the stack: its decimal
/// digits and a newline.
pub fn halt_line(v: u16) -> (r: Vec<u8>)
    ensures
        r@ == decimal_spec(v as nat).push(10u8),
{
    let mut r: Vec<u8> = Vec::new();
    push_decimal(v, &mut r);
    r.push(10u8);
    assert(r@ =~= decimal_spec(v as nat).push(10u8));
    r
}

} // verus!
