//! Random generation of the values of `chinese_format`: integers, counts,
//! fractions, digit sequences, decimals, renminbi amounts, dates and times.
//!
//! Every generator draws its primitive values from a [RawGenerator], whose
//! methods promise a value inside the requested inclusive range; the
//! generators only hand such values to the validating constructors of
//! `chinese_format`.
mod currency;
mod digit_sequences;
mod errors;
pub mod gregorian;
mod numeric;
mod raw;

pub use currency::{renminbi_fits, renminbi_of, renminbi_whole_units_only, RenminbiParams};
pub use digit_sequences::{
    digit_sequence_fits, digits_of, fixed_length_digit_sequence, is_digit_seq,
};
pub use errors::InvalidLowerBound;
pub use numeric::{fraction_denominator_nonzero, fraction_fits, fraction_of};
pub use raw::{FastRandGenerator, RawGenerator};

use vstd::prelude::*;

verus! {

/// Parametrically generates random instances of the data structures
/// of `chinese_format`, drawing every primitive value from its sampler.
pub struct ChineseFormatGenerator<R: RawGenerator> {
    pub(crate) raw_generator: R,
}

impl<R: RawGenerator> ChineseFormatGenerator<R> {
    /// The sampler that this generator owns.
    pub closed spec fn sampler(&self) -> R {
        self.raw_generator
    }

    /// Creates a generator that owns the given sampler.
    pub fn new(raw_generator: R) -> (r: Self)
        ensures
            r.sampler() == raw_generator,
    {
        Self { raw_generator }
    }
}

} // verus!
