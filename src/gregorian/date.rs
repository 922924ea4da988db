use super::GregorianGenerator;
use crate::RawGenerator;
use chinese_format::gregorian::{Date, DateBuilder, DatePattern, WeekDay, WeekFormat};
use std::ops::RangeInclusive;
use vstd::prelude::*;

verus! {

#[verifier::external_type_specification]
#[verifier::external_body]
pub struct ExDate(Date);

#[verifier::external_type_specification]
pub struct ExDatePattern(DatePattern);

#[verifier::external_type_specification]
pub struct ExWeekDay(WeekDay);

#[verifier::external_type_specification]
pub struct ExWeekFormat(WeekFormat);

/// The lowest year drawn when no year range is given.
pub const DEFAULT_YEAR_MIN: u16 = 1800;

/// The highest year drawn when no year range is given.
pub const DEFAULT_YEAR_MAX: u16 = 2140;

/// Parameters for the random creation of [Date].
pub struct DateParams {
    /// How the date should appear - for example, [DatePattern::YearMonthDay].
    pub pattern: DatePattern,
    /// The year range, if the pattern has a year; [None] stands for
    /// [DEFAULT_YEAR_MIN]`..=`[DEFAULT_YEAR_MAX].
    pub year_range: Option<RangeInclusive<u16>>,
    /// Applies to the date format - for example, 号 instead of 日 after the
    /// day ordinal.
    pub formal: bool,
    /// How *week* is written, if the pattern has a week day; [None] stands
    /// for the default of [WeekFormat].
    pub week_format: Option<WeekFormat>,
}

pub open spec fn pattern_has_year(p: DatePattern) -> bool {
    p is Year || p is YearMonth || p is YearMonthDay || p is YearMonthDayWeekDay
}

pub open spec fn pattern_has_month(p: DatePattern) -> bool {
    p is Month || p is YearMonth || p is YearMonthDay || p is MonthDay || p is MonthDayWeekDay
        || p is YearMonthDayWeekDay
}

pub open spec fn pattern_has_day(p: DatePattern) -> bool {
    p is Day || p is YearMonthDay || p is MonthDay || p is MonthDayWeekDay || p is DayWeekDay
        || p is YearMonthDayWeekDay
}

pub open spec fn pattern_has_week_day(p: DatePattern) -> bool {
    p is WeekDay || p is MonthDayWeekDay || p is DayWeekDay || p is YearMonthDayWeekDay
}

/// Relies on DatePattern::has_year.
pub assume_specification[ DatePattern::has_year ](p: &DatePattern) -> (r: bool)
    ensures
        r == pattern_has_year(*p),
;

/// Relies on DatePattern::has_month.
pub assume_specification[ DatePattern::has_month ](p: &DatePattern) -> (r: bool)
    ensures
        r == pattern_has_month(*p),
;

/// Relies on DatePattern::has_day.
pub assume_specification[ DatePattern::has_day ](p: &DatePattern) -> (r: bool)
    ensures
        r == pattern_has_day(*p),
;

/// Relies on DatePattern::has_week_day.
pub assume_specification[ DatePattern::has_week_day ](p: &DatePattern) -> (r: bool)
    ensures
        r == pattern_has_week_day(*p),
;

/// The combinations of fields that some [DatePattern] has, in the order
/// year, month, day, week day.
pub open spec fn is_date_pattern(year: bool, month: bool, day: bool, week_day: bool) -> bool {
    let f = (year, month, day, week_day);
    ||| f == (true, false, false, false)
    ||| f == (false, true, false, false)
    ||| f == (false, false, true, false)
    ||| f == (false, false, false, true)
    ||| f == (true, true, false, false)
    ||| f == (true, true, true, false)
    ||| f == (false, true, true, false)
    ||| f == (false, true, true, true)
    ||| f == (false, false, true, true)
    ||| f == (true, true, true, true)
}

/// Gregorian leap years.
pub open spec fn is_leap_year(year: u16) -> bool {
    year % 4 == 0 && (year % 100 != 0 || year % 400 == 0)
}

/// The number of days of a month, given whether its year is a leap year.
pub open spec fn days_in_month(month: u8, leap: bool) -> u8 {
    if month == 4 || month == 6 || month == 9 || month == 11 {
        30
    } else if month == 2 {
        if leap {
            29
        } else {
            28
        }
    } else {
        31
    }
}

/// The fields that a [Date] can be built from: a combination that a pattern
/// has, a month in `1..=12`, a day in `1..=31` that its month has; a missing
/// year counts as a leap year.
pub open spec fn date_fields_valid(
    year: Option<u16>,
    month: Option<u8>,
    day: Option<u8>,
    week_day: Option<WeekDay>,
) -> bool {
    &&& is_date_pattern(year is Some, month is Some, day is Some, week_day is Some)
    &&& (month matches Some(m) ==> 1 <= m <= 12)
    &&& (day matches Some(d) ==> 1 <= d <= 31)
    &&& match (month, day) {
        (Some(m), Some(d)) => {
            let leap = match year {
                Some(y) => is_leap_year(y),
                None => true,
            };
            d <= days_in_month(m, leap)
        },
        _ => true,
    }
}

/// The date that the builder of `chinese_format` makes of these fields.
pub uninterp spec fn date_of(
    year: Option<u16>,
    month: Option<u8>,
    day: Option<u8>,
    week_day: Option<WeekDay>,
    formal: bool,
    week_format: WeekFormat,
) -> Date;

/// Relies on DateBuilder (new, the with_ setters, build): the build
/// succeeds exactly on valid fields, and its date depends on the fields
/// alone.
#[verifier::external_body]
fn build_date(
    year: Option<u16>,
    month: Option<u8>,
    day: Option<u8>,
    week_day: Option<WeekDay>,
    formal: bool,
    week_format: WeekFormat,
) -> (r: Option<Date>)
    ensures
        r is Some <==> date_fields_valid(year, month, day, week_day),
        r matches Some(d) ==> d == date_of(year, month, day, week_day, formal, week_format),
{
    let mut builder = DateBuilder::new().with_formal(formal).with_week_format(week_format);
    if let Some(y) = year { builder = builder.with_year(y); }
    if let Some(m) = month { builder = builder.with_month(m); }
    if let Some(d) = day { builder = builder.with_day(d); }
    if let Some(w) = week_day { builder = builder.with_week_day(w); }
    builder.build().ok()
}

/// The week day of an ordinal in `0..=6`, from Sunday.
pub open spec fn week_day_of(n: u8) -> WeekDay {
    if n == 0 {
        WeekDay::Sunday
    } else if n == 1 {
        WeekDay::Monday
    } else if n == 2 {
        WeekDay::Tuesday
    } else if n == 3 {
        WeekDay::Wednesday
    } else if n == 4 {
        WeekDay::Thursday
    } else if n == 5 {
        WeekDay::Friday
    } else {
        WeekDay::Saturday
    }
}

/// Relies on WeekDay's TryFrom<u8>: 0 to 6 are Sunday to Saturday.
#[verifier::external_body]
fn week_day_from(n: u8) -> (r: Option<WeekDay>)
    ensures
        r == (if n <= 6 { Some(week_day_of(n)) } else { None::<WeekDay> }),
{
    WeekDay::try_from(n).ok()
}

/// Relies on WeekFormat's Default: XingQi.
pub assume_specification[ <WeekFormat as Default>::default ]() -> (r: WeekFormat)
    ensures
        r == WeekFormat::XingQi,
;

pub open spec fn week_format_or_default(week_format: Option<WeekFormat>) -> WeekFormat {
    match week_format {
        Some(f) => f,
        None => WeekFormat::XingQi,
    }
}

/// The inclusive bounds of the years drawn for these parameters.
pub open spec fn year_bounds(params: DateParams) -> (u16, u16) {
    match params.year_range {
        Some(range) => (range@.start, range@.end),
        None => (DEFAULT_YEAR_MIN, DEFAULT_YEAR_MAX),
    }
}

/// A draw of date fields for a pattern: exactly the pattern's fields are
/// present, the year within `year_low..=year_high`, the month in `1..=12` and
/// the day in `1..=31`.
pub open spec fn date_draw_fits(
    pattern: DatePattern,
    year_low: u16,
    year_high: u16,
    year: Option<u16>,
    month: Option<u8>,
    day: Option<u8>,
    week_day: Option<WeekDay>,
) -> bool {
    &&& (year is Some <==> pattern_has_year(pattern))
    &&& (month is Some <==> pattern_has_month(pattern))
    &&& (day is Some <==> pattern_has_day(pattern))
    &&& (week_day is Some <==> pattern_has_week_day(pattern))
    &&& (year matches Some(y) ==> year_low <= y <= year_high)
    &&& (month matches Some(m) ==> 1 <= m <= 12)
    &&& (day matches Some(d) ==> 1 <= d <= 31)
}

/// Relies on RangeInclusive::start: the lower bound of a range that has not
/// been iterated to its end.
pub assume_specification<Idx>[ RangeInclusive::<Idx>::start ](r: &RangeInclusive<Idx>) -> (ret:
    &Idx)
    requires
        !r@.exhausted,
    ensures
        *ret == r@.start,
;

/// Relies on RangeInclusive::end: the upper bound of a range that has not
/// been iterated to its end.
pub assume_specification<Idx>[ RangeInclusive::<Idx>::end ](r: &RangeInclusive<Idx>) -> (ret:
    &Idx)
    requires
        !r@.exhausted,
    ensures
        *ret == r@.end,
;

/// The number of draws after which the day is drawn among the days that
/// every month has.
const DATE_DRAWS: u64 = 0xffff_ffff_ffff_ffff;

impl<'a, R: RawGenerator> GregorianGenerator<'a, R> {
    /// Draws the fields of the pattern: a year in `year_low..=year_high`, a
    /// month in `1..=12`, a day in `1..=day_high` and any week day.
    fn draw_date_fields(&self, pattern: &DatePattern, year_low: u16, year_high: u16, day_high: u8)
        -> (r: (Option<u16>, Option<u8>, Option<u8>, Option<WeekDay>))
        requires
            pattern_has_year(*pattern) ==> year_low <= year_high,
            1 <= day_high <= 31,
        ensures
            date_draw_fits(*pattern, year_low, year_high, r.0, r.1, r.2, r.3),
            r.2 matches Some(d) ==> d <= day_high,
            is_date_pattern(r.0 is Some, r.1 is Some, r.2 is Some, r.3 is Some),
    {
        let year = if pattern.has_year() {
            Some(self.raw_generator.u16(year_low..=year_high))
        } else {
            None
        };
        let month = if pattern.has_month() {
            Some(self.raw_generator.u8(1..=12))
        } else {
            None
        };
        let day = if pattern.has_day() {
            Some(self.raw_generator.u8(1..=day_high))
        } else {
            None
        };
        let week_day = if pattern.has_week_day() {
            let n = self.raw_generator.u8(0..=6);
            week_day_from(n)
        } else {
            None
        };
        (year, month, day, week_day)
    }

    /// Generates a random [Date] for the given parameters.
    ///
    /// The fields of the pattern are drawn, each within its own range, and
    /// drawn again as a whole until they make a valid Gregorian date. The
    /// week day, if the pattern has one, is drawn on its own and need not be
    /// the true week day of the date.
    ///
    /// So that the loop provably ends, the draws are counted: after
    /// [u64::MAX] rejected draws the day is drawn from `1..=28`, which every
    /// month has.
    pub fn date(&self, params: DateParams) -> (r: Date)
        requires
            pattern_has_year(params.pattern) ==> match params.year_range {
                Some(range) => !range@.exhausted && range@.start <= range@.end,
                None => true,
            },
        ensures
            exists|
                year: Option<u16>,
                month: Option<u8>,
                day: Option<u8>,
                week_day: Option<WeekDay>,
            |
                {
                    &&& date_draw_fits(
                        params.pattern,
                        year_bounds(params).0,
                        year_bounds(params).1,
                        year,
                        month,
                        day,
                        week_day,
                    )
                    &&& date_fields_valid(year, month, day, week_day)
                    &&& r == #[trigger] date_of(
                        year,
                        month,
                        day,
                        week_day,
                        params.formal,
                        week_format_or_default(params.week_format),
                    )
                },
    {
        let week_format = match params.week_format {
            Some(f) => f,
            None => WeekFormat::default(),
        };
        let has_year = params.pattern.has_year();
        let (year_low, year_high): (u16, u16) = match &params.year_range {
            Some(range) => {
                if has_year {
                    (*range.start(), *range.end())
                } else {
                    (0, 0)
                }
            },
            None => (DEFAULT_YEAR_MIN, DEFAULT_YEAR_MAX),
        };
        let ghost bounds = (year_low, year_high);
        assert(has_year ==> bounds == year_bounds(params));
        let mut draws: u64 = 0;
        while draws < DATE_DRAWS
            invariant
                pattern_has_year(params.pattern) ==> year_low <= year_high,
                pattern_has_year(params.pattern) ==> (year_low, year_high) == year_bounds(params),
                week_format == week_format_or_default(params.week_format),
            decreases DATE_DRAWS - draws,
        {
            let (year, month, day, week_day) = self.draw_date_fields(
                &params.pattern,
                year_low,
                year_high,
                31,
            );
            match build_date(year, month, day, week_day, params.formal, week_format) {
                Some(date) => {
                    return date;
                },
                None => {},
            }
            draws = draws + 1;
        }
        let (year, month, day, week_day) = self.draw_date_fields(
            &params.pattern,
            year_low,
            year_high,
            28,
        );
        let built = build_date(year, month, day, week_day, params.formal, week_format);
        built.unwrap()
    }
}

} // verus!
