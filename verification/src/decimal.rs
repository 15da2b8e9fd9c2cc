//! Decimal quantities: an integer times a power of ten.

use vstd::prelude::*;
use vstd::arithmetic::power::{pow, lemma_pow_adds, lemma_pow_positive};

verus! {

/// A decimal quantity, `mantissa` times ten to the power `exp10`.  Two
/// quantities are equal when both fields are: no normal form is imposed.
#[derive(Clone, Copy, Debug, PartialEq, Eq, Structural)]
pub struct Decimal {
    pub mantissa: i64,
    pub exp10: i32,
}

/// `n` where it is positive, else zero.
pub open spec fn positive_part(n: int) -> nat {
    if n > 0 {
        n as nat
    } else {
        0
    }
}

impl Decimal {
    /// The quantity is the fraction `numer() / denom()`: this is its
    /// numerator.
    pub open spec fn numer(self) -> int {
        self.mantissa * pow(10, positive_part(self.exp10 as int))
    }

    /// The denominator of the quantity, a positive power of ten.
    pub open spec fn denom(self) -> int {
        pow(10, positive_part(-(self.exp10 as int)))
    }
}

/// `val` with its exponent moved by `shift`, where the new exponent is
/// representable.
pub open spec fn shifted(val: Decimal, shift: int) -> Option<Decimal> {
    let e = val.exp10 + shift;
    if i32::MIN <= e <= i32::MAX {
        Some(Decimal { mantissa: val.mantissa, exp10: e as i32 })
    } else {
        None
    }
}

/// Moves the exponent of `val` by `shift`.
pub fn shift_exp(val: Decimal, shift: i32) -> (out: Option<Decimal>)
    ensures
        out == shifted(val, shift as int),
{
    let e: i64 = val.exp10 as i64 + shift as i64;
    if -2147483648 <= e && e <= 2147483647 {
        Some(Decimal { mantissa: val.mantissa, exp10: e as i32 })
    } else {
        None
    }
}

/// Moving the exponent up by `shift` multiplies the quantity by ten to that
/// power, and moving it down divides it: as fractions,
/// `out = val * 10^shift`.
pub proof fn lemma_shift_multiplies(val: Decimal, shift: int)
    requires
        shifted(val, shift).is_some(),
    ensures
        val.denom() > 0,
        shifted(val, shift).unwrap().denom() > 0,
        shifted(val, shift).unwrap().numer() * val.denom() * pow(10, positive_part(-shift))
            == val.numer() * shifted(val, shift).unwrap().denom() * pow(10, positive_part(shift)),
{
    let out = shifted(val, shift).unwrap();
    let m = val.mantissa as int;
    let e = val.exp10 as int;
    let f = out.exp10 as int;
    let pe = pow(10, positive_part(e));
    let qe = pow(10, positive_part(-e));
    let pf = pow(10, positive_part(f));
    let qf = pow(10, positive_part(-f));
    let ps = pow(10, positive_part(shift));
    let qs = pow(10, positive_part(-shift));
    lemma_pow_positive(10, positive_part(-e));
    lemma_pow_positive(10, positive_part(-f));
    assert(pf * qe * qs == pe * qf * ps) by {
        lemma_pow_adds(10, positive_part(f), positive_part(-e));
        lemma_pow_adds(10, positive_part(f) + positive_part(-e), positive_part(-shift));
        lemma_pow_adds(10, positive_part(e), positive_part(-f));
        lemma_pow_adds(10, positive_part(e) + positive_part(-f), positive_part(shift));
        assert(positive_part(f) + positive_part(-e) + positive_part(-shift) == positive_part(e)
            + positive_part(-f) + positive_part(shift));
    }
    assert((m * pf) * qe * qs == (m * pe) * qf * ps) by (nonlinear_arith)
        requires
            pf * qe * qs == pe * qf * ps,
    ;
}

} // verus!
