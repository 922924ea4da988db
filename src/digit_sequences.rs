use crate::{ChineseFormatGenerator, RawGenerator};
use chinese_format::{Decimal, IntegerPart};
use digit_sequence::DigitSequence;
use std::ops::RangeInclusive;
use vstd::prelude::*;

verus! {

#[verifier::external_type_specification]
#[verifier::external_body]
pub struct ExDigitSequence(DigitSequence);

#[verifier::external_type_specification]
pub struct ExDecimal(Decimal);

/// The digits that a [DigitSequence] holds, most significant first.
pub uninterp spec fn digits_of(s: DigitSequence) -> Seq<u8>;

/// Every element is a decimal digit.
pub open spec fn is_digit_seq(digits: Seq<u8>) -> bool {
    forall|i: int| 0 <= i < digits.len() ==> #[trigger] digits[i] <= 9
}

/// A digit sequence whose length lies within the range.
pub open spec fn digit_sequence_fits(range: RangeInclusive<u8>, s: DigitSequence) -> bool {
    &&& range@.start <= digits_of(s).len() <= range@.end
    &&& is_digit_seq(digits_of(s))
}

/// Relies on DigitSequence's TryFrom<Vec<u8>>: it keeps the digits in their
/// order and fails exactly when one of them is not below 10.
#[verifier::external_body]
fn digit_sequence_from(digits: Vec<u8>) -> (r: Option<DigitSequence>)
    ensures
        r is Some <==> is_digit_seq(digits@),
        r matches Some(s) ==> digits_of(s) == digits@,
{
    DigitSequence::try_from(digits).ok()
}

/// A digit sequence drawn for a range with equal bounds has exactly that
/// many digits, each in `0..=9`; for the range `0..=0` it is empty.
pub proof fn fixed_length_digit_sequence(length_range: RangeInclusive<u8>, s: DigitSequence)
    requires
        digit_sequence_fits(length_range, s),
        length_range@.start == length_range@.end,
    ensures
        digits_of(s).len() == length_range@.start,
        forall|i: int| 0 <= i < digits_of(s).len() ==> #[trigger] digits_of(s)[i] <= 9,
        length_range@.start == 0 ==> digits_of(s) == Seq::<u8>::empty(),
{
    if length_range@.start == 0 {
        assert(digits_of(s) =~= Seq::<u8>::empty());
    }
}

impl<R: RawGenerator> ChineseFormatGenerator<R> {
    /// Generates a random [DigitSequence] whose length is drawn from the
    /// given range, and each of its digits from `0..=9`.
    pub fn digit_sequence(&self, length_range: RangeInclusive<u8>) -> (r: DigitSequence)
        requires
            !length_range@.exhausted,
            length_range@.start <= length_range@.end,
        ensures
            digit_sequence_fits(length_range, r),
    {
        let length = self.raw_generator.u8(length_range);
        let mut digits: Vec<u8> = Vec::new();
        let mut i: u8 = 0;
        while i < length
            invariant
                i <= length,
                digits@.len() == i,
                is_digit_seq(digits@),
            decreases length - i,
        {
            let digit = self.raw_generator.u8(0..=9);
            digits.push(digit);
            i = i + 1;
        }
        digit_sequence_from(digits).unwrap()
    }

    /// Generates a random [Decimal]: its integer part drawn from
    /// `integer_range`, its fractional part a digit sequence whose length is
    /// drawn from `fractional_length_range`.
    pub fn decimal(
        &self,
        integer_range: RangeInclusive<IntegerPart>,
        fractional_length_range: RangeInclusive<u8>,
    ) -> (r: Decimal)
        requires
            !integer_range@.exhausted,
            integer_range@.start <= integer_range@.end,
            !fractional_length_range@.exhausted,
            fractional_length_range@.start <= fractional_length_range@.end,
        ensures
            integer_range@.start <= r.integer <= integer_range@.end,
            digit_sequence_fits(fractional_length_range, r.fractional),
    {
        let integer: IntegerPart = self.raw_generator.i128(integer_range);
        let fractional: DigitSequence = self.digit_sequence(fractional_length_range);
        Decimal { integer, fractional }
    }
}

} // verus!
