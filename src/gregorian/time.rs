use super::GregorianGenerator;
use crate::RawGenerator;
use chinese_format::gregorian::{DeltaTime, Hour12, Hour24, LinearTime, Minute, Second};
use vstd::prelude::*;

verus! {

#[verifier::external_type_specification]
#[verifier::external_body]
pub struct ExHour24(Hour24);

#[verifier::external_type_specification]
#[verifier::external_body]
pub struct ExHour12(Hour12);

#[verifier::external_type_specification]
#[verifier::external_body]
pub struct ExMinute(Minute);

#[verifier::external_type_specification]
#[verifier::external_body]
pub struct ExSecond(Second);

#[verifier::external_type_specification]
pub struct ExLinearTime(LinearTime);

#[verifier::external_type_specification]
pub struct ExDeltaTime(DeltaTime);

/// Parameters for the random creation of [LinearTime].
#[derive(Debug, Clone, Copy, PartialEq, Eq, PartialOrd, Ord, Hash)]
pub struct LinearTimeParams {
    /// If set to `true`, the result has a day part and its hour is drawn on
    /// the 12-hour clock; otherwise, on the 24-hour clock.
    pub day_part: bool,
    /// If set to `true`, the *second* part is generated.
    pub include_second: bool,
}

/// The [Hour24] of `chinese_format` for a value in `0..=23`.
pub uninterp spec fn hour24_of(value: u8) -> Hour24;

/// The [Hour12] of `chinese_format` for a value in `1..=12`.
pub uninterp spec fn hour12_of(value: u8) -> Hour12;

/// The [Minute] of `chinese_format` for a value in `0..=59`.
pub uninterp spec fn minute_of(value: u8) -> Minute;

/// The [Second] of `chinese_format` for a value in `0..=59`.
pub uninterp spec fn second_of(value: u8) -> Second;

/// Relies on Hour24's TryFrom<u8>: accepts exactly the values below 24.
#[verifier::external_body]
fn hour24_from(value: u8) -> (r: Option<Hour24>)
    ensures
        r == (if value < 24 { Some(hour24_of(value)) } else { None::<Hour24> }),
{
    Hour24::try_from(value).ok()
}

/// Relies on Hour12's TryFrom<u8>: accepts exactly the values in 1..=12.
#[verifier::external_body]
fn hour12_from(value: u8) -> (r: Option<Hour12>)
    ensures
        r == (if 1 <= value <= 12 { Some(hour12_of(value)) } else { None::<Hour12> }),
{
    Hour12::try_from(value).ok()
}

/// Relies on Minute's TryFrom<u8>: accepts exactly the values below 60.
#[verifier::external_body]
fn minute_from(value: u8) -> (r: Option<Minute>)
    ensures
        r == (if value < 60 { Some(minute_of(value)) } else { None::<Minute> }),
{
    Minute::try_from(value).ok()
}

/// Relies on Second's TryFrom<u8>: accepts exactly the values below 60.
#[verifier::external_body]
fn second_from(value: u8) -> (r: Option<Second>)
    ensures
        r == (if value < 60 { Some(second_of(value)) } else { None::<Second> }),
{
    Second::try_from(value).ok()
}

/// A linear time that these parameters allow: an hour in `0..=23`, or in
/// `1..=12` with a day part; a minute in `0..=59`; a second in `0..=59`
/// exactly when it is asked for.
pub open spec fn linear_time_fits(params: LinearTimeParams, t: LinearTime) -> bool {
    &&& t.day_part == params.day_part
    &&& exists|h: u8|
        {
            &&& (if params.day_part { 1 <= h <= 12 } else { h < 24 })
            &&& t.hour == #[trigger] hour24_of(h)
        }
    &&& exists|m: u8| m < 60 && t.minute == #[trigger] minute_of(m)
    &&& (t.second is Some <==> params.include_second)
    &&& (t.second matches Some(s) ==> exists|v: u8| v < 60 && s == #[trigger] second_of(v))
}

impl<'a, R: RawGenerator> GregorianGenerator<'a, R> {
    /// Generates a random [Hour24], in `0..=23`.
    pub fn hour24(&self) -> (r: Hour24)
        ensures
            exists|h: u8| h < 24 && r == #[trigger] hour24_of(h),
    {
        let value = self.raw_generator.u8(0..=23);
        hour24_from(value).unwrap()
    }

    /// Generates a random [Hour12], in `1..=12`.
    pub fn hour12(&self) -> (r: Hour12)
        ensures
            exists|h: u8| 1 <= h <= 12 && r == #[trigger] hour12_of(h),
    {
        let value = self.raw_generator.u8(1..=12);
        hour12_from(value).unwrap()
    }

    /// Generates a random [Minute], in `0..=59`.
    pub fn minute(&self) -> (r: Minute)
        ensures
            exists|m: u8| m < 60 && r == #[trigger] minute_of(m),
    {
        let value = self.raw_generator.u8(0..=59);
        minute_from(value).unwrap()
    }

    /// Generates a random [Second], in `0..=59`.
    pub fn second(&self) -> (r: Second)
        ensures
            exists|s: u8| s < 60 && r == #[trigger] second_of(s),
    {
        let value = self.raw_generator.u8(0..=59);
        second_from(value).unwrap()
    }

    /// Generates a random [LinearTime] for the given parameters.
    pub fn linear_time(&self, params: LinearTimeParams) -> (r: LinearTime)
        ensures
            linear_time_fits(params, r),
    {
        let hour: Hour24 = if params.day_part {
            let value = self.raw_generator.u8(1..=12);
            hour24_from(value).unwrap()
        } else {
            self.hour24()
        };
        let minute: Minute = self.minute();
        let second: Option<Second> = if params.include_second {
            Some(self.second())
        } else {
            None
        };
        LinearTime { day_part: params.day_part, hour, minute, second }
    }

    /// Generates a random [DeltaTime]: an hour in `1..=12` and a minute in
    /// `0..=59`, in the informal register.
    pub fn delta_time(&self) -> (r: DeltaTime)
        ensures
            exists|h: u8| 1 <= h <= 12 && r.hour == #[trigger] hour12_of(h),
            exists|m: u8| m < 60 && r.minute == #[trigger] minute_of(m),
            !r.formal,
    {
        let hour: Hour12 = self.hour12();
        let minute: Minute = self.minute();
        DeltaTime { hour, minute, formal: false }
    }
}

} // verus!
