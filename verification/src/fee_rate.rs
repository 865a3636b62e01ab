//! Fee rates as exact rationals, and the one comparison the checker needs:
//! is a transaction's current fee rate strictly below a requested threshold?

use vstd::prelude::*;

verus! {

/// A fee rate in fee-units per virtual byte, held exactly as the rational
/// `num / den`. A value is meaningful only when `den` is positive; see
/// [`FeeRate::wf`].
#[derive(Clone, Copy, PartialEq, Eq, Debug)]
pub struct FeeRate {
    /// Numerator: fee units.
    pub num: u64,
    /// Denominator: virtual bytes. Positive in every well-formed rate.
    pub den: u64,
}

impl FeeRate {
    /// The rate denotes a rational: its denominator is positive.
    pub open spec fn wf(self) -> bool {
        self.den > 0
    }

    /// The rate is strictly greater than zero.
    pub open spec fn positive(self) -> bool {
        self.num > 0
    }

    /// Builds the rate `num / den`, refusing a zero denominator.
    pub fn new(num: u64, den: u64) -> (r: Option<FeeRate>)
        ensures
            den > 0 ==> r == Some((FeeRate { num, den })),
            den == 0 ==> r is None,
            (r matches Some(rate) ==> rate.wf()),
    {
        if den > 0 {
            Some(FeeRate { num, den })
        } else {
            None
        }
    }

    /// Builds a whole-number rate of `sats` fee units per virtual byte.
    pub fn from_units_per_vbyte(sats: u64) -> (r: FeeRate)
        ensures
            r == (FeeRate { num: sats, den: 1u64 }),
            r.wf(),
    {
        FeeRate { num: sats, den: 1 }
    }
}

/// Whether the current fee rate of a transaction is strictly below the
/// threshold `rate`. With a recorded fee the current rate is `fee / size`,
/// and `fee / size < num / den` is compared exactly as
/// `fee * den < num * size`; a size of zero therefore never counts as below.
/// With no recorded fee the current rate counts as zero, whatever the size,
/// so the comparison holds exactly when the threshold is positive.
pub open spec fn rate_below(fee: Option<u64>, size: u64, rate: FeeRate) -> bool {
    match fee {
        Option::Some(f) => (f as int) * (rate.den as int) < (rate.num as int) * (size as int),
        Option::None => rate.positive(),
    }
}

/// Decides [`rate_below`] at run time, cross-multiplying in 128 bits so the
/// products are exact.
pub fn rate_strictly_below(fee: Option<u64>, size: u64, rate: &FeeRate) -> (r: bool)
    ensures
        r == rate_below(fee, size, *rate),
{
    match fee {
        Option::Some(f) => {
            proof {
                assert((f as int) * (rate.den as int) <= u128::MAX as int) by (nonlinear_arith)
                    requires
                        0 <= f <= u64::MAX,
                        0 <= rate.den <= u64::MAX,
                ;
                assert((rate.num as int) * (size as int) <= u128::MAX as int) by (nonlinear_arith)
                    requires
                        0 <= rate.num <= u64::MAX,
                        0 <= size <= u64::MAX,
                ;
            }
            let paid: u128 = (f as u128) * (rate.den as u128);
            let asked: u128 = (rate.num as u128) * (size as u128);
            paid < asked
        },
        Option::None => rate.num > 0,
    }
}

} // verus!
