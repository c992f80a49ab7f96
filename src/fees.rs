//! Fixed-point fee splitting.
use vstd::prelude::*;

verus! {

/// Rates are expressed in units of one ten-thousandth of the gross amount.
pub const BASIS_POINTS: u64 = 10000;

/// Why a split was refused.
#[derive(Debug, Clone, Copy, PartialEq, Eq, Structural)]
pub enum FeeError {
    /// The gross amount is zero.
    ZeroAmount,
    /// The denominator is zero or the two rates together exceed it.
    InvalidRate,
    /// `gross * rate` does not fit in a `u64`.
    ArithmeticOverflow,
}

/// The three parts of a gross amount.
#[derive(Debug, Clone, Copy, PartialEq, Eq, Structural)]
pub struct FeeSplit {
    pub net: u64,
    pub fee_a: u64,
    pub fee_b: u64,
}

/// Splits gross amounts under rates measured against a fixed denominator
/// (`BASIS_POINTS` for basis points, 1000 for per-mille rates).
#[derive(Debug, Clone, Copy, PartialEq, Eq, Structural)]
pub struct FeeSplitter {
    pub denominator: u64,
}

/// The fee share `floor(gross * rate / denominator)`.
pub open spec fn share(gross: u64, rate: u16, denominator: u64) -> int {
    (gross as int * rate as int) / (denominator as int)
}

/// Whether the inputs of a split are acceptable: a positive amount, rates
/// that together stay within the denominator, and products that fit.
pub open spec fn split_error(denominator: u64, gross: u64, rate_a: u16, rate_b: u16) -> Option<FeeError> {
    if gross == 0 {
        Some(FeeError::ZeroAmount)
    } else if denominator == 0 || rate_a as int + rate_b as int > denominator as int {
        Some(FeeError::InvalidRate)
    } else if gross as int * rate_a as int > u64::MAX as int || gross as int * rate_b as int
        > u64::MAX as int {
        Some(FeeError::ArithmeticOverflow)
    } else {
        None
    }
}

/// The outcome of splitting `gross`: both fees truncate, and whatever the
/// truncation leaves over goes to the net amount.
pub open spec fn split_result(denominator: u64, gross: u64, rate_a: u16, rate_b: u16) -> Result<
    FeeSplit,
    FeeError,
> {
    match split_error(denominator, gross, rate_a, rate_b) {
        Some(e) => Err(e),
        None => Ok(
            FeeSplit {
                fee_a: share(gross, rate_a, denominator) as u64,
                fee_b: share(gross, rate_b, denominator) as u64,
                net: (gross - share(gross, rate_a, denominator) - share(
                    gross,
                    rate_b,
                    denominator,
                )) as u64,
            },
        ),
    }
}

/// Whether a split adds back up to the amount it came from.
pub open spec fn split_sums_to(s: FeeSplit, gross: u64) -> bool {
    s.net as int + s.fee_a as int + s.fee_b as int == gross as int
}

/// Two fee shares under rates within the denominator never exceed the gross.
proof fn lemma_shares_fit(gross: u64, rate_a: u16, rate_b: u16, denominator: u64)
    requires
        denominator > 0,
        rate_a as int + rate_b as int <= denominator as int,
    ensures
        0 <= share(gross, rate_a, denominator),
        0 <= share(gross, rate_b, denominator),
        share(gross, rate_a, denominator) + share(gross, rate_b, denominator) <= gross as int,
{
    let g = gross as int;
    let a = rate_a as int;
    let b = rate_b as int;
    let d = denominator as int;
    assert(0 <= (g * a) / d) by (nonlinear_arith)
        requires g >= 0, a >= 0, d > 0;
    assert(0 <= (g * b) / d) by (nonlinear_arith)
        requires g >= 0, b >= 0, d > 0;
    assert((g * a) / d + (g * b) / d <= (g * a + g * b) / d) by (nonlinear_arith)
        requires g >= 0, a >= 0, b >= 0, d > 0;
    assert(g * a + g * b <= g * d) by (nonlinear_arith)
        requires g >= 0, a >= 0, b >= 0, a + b <= d;
    assert((g * a + g * b) / d <= (g * d) / d) by (nonlinear_arith)
        requires g * a + g * b <= g * d, d > 0;
    assert((g * d) / d == g) by (nonlinear_arith)
        requires d > 0;
}

/// Every successful split is exact: `net + fee_a + fee_b == gross`, with no
/// amount left over or created.
pub proof fn split_is_exact(denominator: u64, gross: u64, rate_a: u16, rate_b: u16)
    requires
        split_result(denominator, gross, rate_a, rate_b) is Ok,
    ensures
        split_sums_to(split_result(denominator, gross, rate_a, rate_b)->Ok_0, gross),
        split_result(denominator, gross, rate_a, rate_b)->Ok_0.fee_a as int == share(
            gross,
            rate_a,
            denominator,
        ),
        split_result(denominator, gross, rate_a, rate_b)->Ok_0.fee_b as int == share(
            gross,
            rate_b,
            denominator,
        ),
{
    lemma_shares_fit(gross, rate_a, rate_b, denominator);
}

/// A split depends on its inputs alone: two splits of the same amount under
/// the same rates and denominator give the same outcome.
pub proof fn split_is_deterministic(
    s1: FeeSplitter,
    s2: FeeSplitter,
    gross: u64,
    rate_a: u16,
    rate_b: u16,
    r1: Result<FeeSplit, FeeError>,
    r2: Result<FeeSplit, FeeError>,
)
    requires
        s1.denominator == s2.denominator,
        r1 == split_result(s1.denominator, gross, rate_a, rate_b),
        r2 == split_result(s2.denominator, gross, rate_a, rate_b),
    ensures
        r1 == r2,
{
}

impl FeeSplitter {
    /// A splitter over the given denominator.
    pub fn new(denominator: u64) -> (r: FeeSplitter)
        ensures
            r.denominator == denominator,
    {
        FeeSplitter { denominator }
    }

    /// A splitter whose rates are basis points.
    pub fn basis_points() -> (r: FeeSplitter)
        ensures
            r.denominator == BASIS_POINTS,
    {
        FeeSplitter { denominator: BASIS_POINTS }
    }

    /// Splits `gross` into a net amount and the fee shares under `rate_a` and
    /// `rate_b`; each fee truncates toward zero and the remainder stays in the
    /// net amount.
    pub fn split(&self, gross: u64, rate_a: u16, rate_b: u16) -> (r: Result<FeeSplit, FeeError>)
        ensures
            r == split_result(self.denominator, gross, rate_a, rate_b),
            r matches Ok(s) ==> split_sums_to(s, gross),
    {
        if gross == 0 {
            return Err(FeeError::ZeroAmount);
        }
        if self.denominator == 0 || rate_a as u64 + rate_b as u64 > self.denominator {
            return Err(FeeError::InvalidRate);
        }
        let product_a = match gross.checked_mul(rate_a as u64) {
            Some(p) => p,
            None => return Err(FeeError::ArithmeticOverflow),
        };
        let product_b = match gross.checked_mul(rate_b as u64) {
            Some(p) => p,
            None => return Err(FeeError::ArithmeticOverflow),
        };
        let fee_a = product_a / self.denominator;
        let fee_b = product_b / self.denominator;
        proof {
            lemma_shares_fit(gross, rate_a, rate_b, self.denominator);
        }
        let net = gross - fee_a - fee_b;
        Ok(FeeSplit { net, fee_a, fee_b })
    }
}

} // verus!
