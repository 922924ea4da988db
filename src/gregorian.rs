//! Random generation of date and time values of the Gregorian calendar.
mod date;
mod time;

pub use date::{
    date_draw_fits, date_fields_valid, date_of, days_in_month, is_date_pattern, is_leap_year,
    pattern_has_day, pattern_has_month, pattern_has_week_day, pattern_has_year, week_day_of,
    week_format_or_default, year_bounds, DateParams, DEFAULT_YEAR_MAX, DEFAULT_YEAR_MIN,
};
pub use time::{
    hour12_of, hour24_of, linear_time_fits, minute_of, second_of, LinearTimeParams,
};

use crate::{ChineseFormatGenerator, RawGenerator};
use vstd::prelude::*;

verus! {

/// Random generator dedicated to the date and time values of the Gregorian
/// calendar.
///
/// It is made by [ChineseFormatGenerator::gregorian] and only borrows the
/// sampler owned by that generator.
pub struct GregorianGenerator<'a, R: RawGenerator> {
    raw_generator: &'a R,
}

impl<'a, R: RawGenerator> GregorianGenerator<'a, R> {
    /// The sampler that this generator borrows.
    pub closed spec fn sampler(&self) -> R {
        *self.raw_generator
    }
}

impl<R: RawGenerator> ChineseFormatGenerator<R> {
    /// Creates a reusable [GregorianGenerator], which borrows the sampler of
    /// this generator.
    pub fn gregorian(&self) -> (r: GregorianGenerator<'_, R>)
        ensures
            r.sampler() == self.sampler(),
    {
        GregorianGenerator { raw_generator: &self.raw_generator }
    }
}

} // verus!
