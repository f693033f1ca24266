//! Non-negative decimal quantities with three fractional digits.

use vstd::prelude::*;
use vstd::arithmetic::div_mod::{lemma_fundamental_div_mod, lemma_hoist_over_denominator};

verus! {

/// A non-negative quantity counted in thousandths of its unit:
/// `Milli { thousandths: 12_345 }` stands for 12.345.
#[derive(Clone, Copy, Debug, PartialEq, Eq, Structural)]
pub struct Milli {
    pub thousandths: u128,
}

/// `part / whole * 100` in thousandths of a percent, rounded down; zero when
/// `whole` is zero.
pub open spec fn percentage_of(part: nat, whole: nat) -> nat {
    if whole == 0 {
        0
    } else {
        (part * 100_000) / whole
    }
}

/// The sum of the given quantities, in thousandths.
pub open spec fn sum_thousandths(values: Seq<Milli>) -> nat
    decreases values.len(),
{
    if values.len() == 0 {
        0
    } else {
        sum_thousandths(values.drop_last()) + values.last().thousandths as nat
    }
}

/// The arithmetic mean of the given quantities in thousandths, rounded
/// down; zero for an empty sequence.
pub open spec fn mean_of(values: Seq<Milli>) -> nat {
    if values.len() == 0 {
        0
    } else {
        sum_thousandths(values) / values.len()
    }
}

/// A part of a whole is at most 100 % of it.
pub proof fn lemma_percentage_of_part(part: nat, whole: nat)
    requires
        part <= whole,
    ensures
        percentage_of(part, whole) <= 100_000,
{
    if whole > 0 {
        assert((part * 100_000) / whole <= 100_000) by (nonlinear_arith)
            requires
                part <= whole,
                0 < whole,
        ;
    }
}

/// The mean of quantities that all stay at or below `limit` stays there too.
pub proof fn lemma_mean_within_limit(values: Seq<Milli>, limit: nat)
    requires
        forall|i: int| 0 <= i < values.len() ==> values[i].thousandths <= limit,
    ensures
        mean_of(values) <= limit,
{
    if values.len() > 0 {
        lemma_sum_within_limit(values, limit);
        let total = sum_thousandths(values) as int;
        let count = values.len() as int;
        assert(total / count <= limit) by (nonlinear_arith)
            requires
                0 <= total <= count * limit,
                0 < count,
        ;
    }
}

/// A sum of quantities that all stay at or below `limit` is at most their
/// number times `limit`.
proof fn lemma_sum_within_limit(values: Seq<Milli>, limit: nat)
    requires
        forall|i: int| 0 <= i < values.len() ==> values[i].thousandths <= limit,
    ensures
        sum_thousandths(values) <= values.len() * limit,
    decreases values.len(),
{
    if values.len() > 0 {
        lemma_sum_within_limit(values.drop_last(), limit);
        assert(values.len() * limit == (values.len() - 1) * limit + limit) by (nonlinear_arith);
    }
}

impl Milli {
    /// The share that `part` has of `whole`, as a percentage.
    pub fn percentage(part: u64, whole: u64) -> (share: Milli)
        ensures
            share.thousandths == percentage_of(part as nat, whole as nat),
    {
        if whole == 0 {
            Milli { thousandths: 0 }
        } else {
            let scaled: u128 = part as u128 * 100_000;
            Milli { thousandths: scaled / (whole as u128) }
        }
    }

    /// The arithmetic mean of `values`.
    ///
    /// The sum itself may not fit in any machine integer, so the quotients
    /// and remainders of the single values are summed instead.
    pub fn mean(values: &Vec<Milli>) -> (average: Milli)
        ensures
            average.thousandths == mean_of(values@),
    {
        let n: usize = values.len();
        if n == 0 {
            return Milli { thousandths: 0 };
        }
        let count: u128 = n as u128;
        let mut quotients: u128 = 0;
        let mut remainders: u128 = 0;
        let mut i: usize = 0;
        while i < n
            invariant
                n == values.len(),
                count == n,
                0 < n,
                i <= n,
                quotients * count + remainders == sum_thousandths(values@.take(i as int)),
                remainders <= i * (count - 1),
            decreases n - i,
        {
            let value: u128 = values[i].thousandths;
            let q: u128 = value / count;
            let r: u128 = value % count;
            proof {
                let before = values@.take(i as int);
                let after = values@.take(i + 1);
                assert(after.drop_last() =~= before);
                assert(after.last() == values@[i as int]);
                lemma_sum_within_limit(after, u128::MAX as nat);
                lemma_fundamental_div_mod(value as int, count as int);
                assert((quotients + q) * count + (remainders + r) == sum_thousandths(after))
                    by (nonlinear_arith)
                    requires
                        quotients * count + remainders + value == sum_thousandths(after),
                        value == count * q + r,
                ;
                assert(quotients + q <= u128::MAX) by (nonlinear_arith)
                    requires
                        (quotients + q) * count + (remainders + r) <= (i + 1) * u128::MAX,
                        i + 1 <= count,
                        0 < count,
                        0 <= remainders + r,
                ;
                assert(remainders + r <= (i + 1) * (count - 1) <= u128::MAX) by (nonlinear_arith)
                    requires
                        remainders <= i * (count - 1),
                        r <= count - 1,
                        i + 1 <= count,
                        0 < count <= u64::MAX,
                ;
            }
            quotients = quotients + q;
            remainders = remainders + r;
            i += 1;
        }
        proof {
            assert(values@.take(n as int) =~= values@);
            lemma_sum_within_limit(values@, u128::MAX as nat);
            lemma_hoist_over_denominator(remainders as int, quotients as int, count as nat);
            let total = sum_thousandths(values@) as int;
            assert(total / (count as int) <= u128::MAX) by (nonlinear_arith)
                requires
                    0 <= total <= count * u128::MAX,
                    0 < count,
            ;
        }
        Milli { thousandths: quotients + remainders / count }
    }
}

} // verus!
