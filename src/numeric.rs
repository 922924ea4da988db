use crate::{ChineseFormatGenerator, InvalidLowerBound, RawGenerator};
use chinese_format::{Count, CountBase, Fraction};
use std::ops::RangeInclusive;
use vstd::prelude::*;

verus! {

#[verifier::external_type_specification]
#[verifier::external_body]
pub struct ExFraction(Fraction);

#[verifier::external_type_specification]
pub struct ExCount(Count);

/// The [Fraction] of `chinese_format` with this non-zero denominator and
/// this numerator.
pub uninterp spec fn fraction_of(denominator: u128, numerator: i128) -> Fraction;

/// Relies on Fraction::try_new: it fails exactly on a zero denominator.
#[verifier::external_body]
fn fraction_try_new(denominator: u128, numerator: i128) -> (r: Option<Fraction>)
    ensures
        r == (if denominator != 0 {
            Some(fraction_of(denominator, numerator))
        } else {
            None::<Fraction>
        }),
{
    Fraction::try_new(denominator, numerator).ok()
}

/// A fraction whose denominator and numerator lie in the given ranges.
pub open spec fn fraction_fits(
    denominator_range: RangeInclusive<u128>,
    numerator_range: RangeInclusive<i128>,
    f: Fraction,
) -> bool {
    exists|d: u128, n: i128|
        {
            &&& denominator_range@.start <= d <= denominator_range@.end
            &&& numerator_range@.start <= n <= numerator_range@.end
            &&& f == #[trigger] fraction_of(d, n)
        }
}

/// A fraction drawn for a denominator range that starts at 1 or above has a
/// non-zero denominator within that range.
pub proof fn fraction_denominator_nonzero(
    denominator_range: RangeInclusive<u128>,
    numerator_range: RangeInclusive<i128>,
    f: Fraction,
)
    requires
        fraction_fits(denominator_range, numerator_range, f),
        denominator_range@.start >= 1,
    ensures
        exists|d: u128, n: i128|
            {
                &&& d != 0
                &&& denominator_range@.start <= d <= denominator_range@.end
                &&& f == #[trigger] fraction_of(d, n)
            },
{
    let (d, n) = choose|d: u128, n: i128|
        {
            &&& denominator_range@.start <= d <= denominator_range@.end
            &&& numerator_range@.start <= n <= numerator_range@.end
            &&& f == #[trigger] fraction_of(d, n)
        };
    assert(d != 0 && f == fraction_of(d, n));
}

impl<R: RawGenerator> ChineseFormatGenerator<R> {
    /// Generates a random [i128] in the given range.
    pub fn integer(&self, range: RangeInclusive<i128>) -> (r: i128)
        requires
            !range@.exhausted,
            range@.start <= range@.end,
        ensures
            range@.start <= r <= range@.end,
    {
        self.raw_generator.i128(range)
    }

    /// Generates a [Fraction] with its denominator and its numerator drawn
    /// from the given ranges.
    ///
    /// A denominator range that starts at 0 is rejected with
    /// [InvalidLowerBound], before anything is drawn.
    pub fn fraction(
        &self,
        denominator_range: RangeInclusive<u128>,
        numerator_range: RangeInclusive<i128>,
    ) -> (r: Result<Fraction, InvalidLowerBound<u128>>)
        requires
            !denominator_range@.exhausted,
            denominator_range@.start <= denominator_range@.end,
            denominator_range@.start != 0 ==> !numerator_range@.exhausted,
            denominator_range@.start != 0 ==> numerator_range@.start <= numerator_range@.end,
        ensures
            r is Err <==> denominator_range@.start == 0,
            r matches Err(e) ==> e.0 == 0,
            r matches Ok(f) ==> fraction_fits(denominator_range, numerator_range, f),
    {
        if *denominator_range.start() == 0 {
            return Err(InvalidLowerBound(0));
        }
        let denominator = self.raw_generator.u128(denominator_range);
        let numerator = self.raw_generator.i128(numerator_range);
        Ok(fraction_try_new(denominator, numerator).unwrap())
    }

    /// Generates a random [Count] in the given range.
    pub fn count(&self, range: RangeInclusive<CountBase>) -> (r: Count)
        requires
            !range@.exhausted,
            range@.start <= range@.end,
        ensures
            range@.start <= r.0 <= range@.end,
    {
        Count(self.raw_generator.u128(range))
    }
}

} // verus!
