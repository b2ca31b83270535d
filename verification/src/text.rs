//! Rendering unsigned integers as ASCII decimal text, the only kind of
//! number the plain-text image format contains.

use vstd::prelude::*;

verus! {

/// ASCII code of the decimal digit `d`.
pub open spec fn decimal_digit(d: nat) -> u8
    recommends
        d < 10,
{
    (48 + d) as u8
}

/// The ASCII decimal spelling of `n`: most significant digit first,
/// no sign, no leading zeros (a single `0` for zero itself).
pub open spec fn decimal(n: nat) -> Seq<u8>
    decreases n,
{
    if n < 10 {
        seq![decimal_digit(n)]
    } else {
        decimal(n / 10) + seq![decimal_digit(n % 10)]
    }
}

/// Appends the decimal spelling of `n` to `out`.
pub fn push_decimal(out: &mut Vec<u8>, n: usize)
    ensures
        final(out)@ == old(out)@ + decimal(n as nat),
    decreases n,
{
    if n >= 10 {
        push_decimal(out, n / 10);
    }
    let d: u8 = (n % 10) as u8 + 48;
    out.push(d);
    proof {
        assert(out@ =~= old(out)@ + decimal(n as nat));
    }
}

/// The decimal spelling of `n` on its own, for callers that do not build a
/// larger byte string around it.
pub fn decimal_bytes(n: usize) -> (out: Vec<u8>)
    ensures
        out@ == decimal(n as nat),
{
    let mut out: Vec<u8> = Vec::new();
    push_decimal(&mut out, n);
    proof {
        assert(out@ =~= decimal(n as nat));
    }
    out
}

} // verus!
