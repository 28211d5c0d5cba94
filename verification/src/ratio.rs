//! Reduced fractions, computed by an outside crate.

use vstd::prelude::*;

verus! {

/// Relies on `num_rational::Ratio::new`, which reduces the fraction to
/// lowest terms (dividing both parts by their greatest common divisor); a
/// zero denominator would panic there, so it is excluded.  The result is an
/// equivalent fraction with a positive denominator, no larger than the
/// input.
#[verifier::external_body]
pub(crate) fn reduce_ratio(numer: u64, denom: u64) -> (r: (u64, u64))
    requires
        denom > 0,
    ensures
        r.1 > 0,
        r.0 * denom == r.1 * numer,
        r.0 <= numer,
        r.1 <= denom,
{
    let ratio = num_rational::Ratio::new(numer, denom);
    (*ratio.numer(), *ratio.denom())
}

} // verus!
