use crate::{ChineseFormatGenerator, RawGenerator};
use chinese_format::currency::{CurrencyStyle, RenminbiCurrency, RenminbiCurrencyBuilder};
use std::ops::RangeInclusive;
use vstd::prelude::*;

verus! {

#[verifier::external_type_specification]
pub struct ExCurrencyStyle(CurrencyStyle);

#[verifier::external_type_specification]
#[verifier::external_body]
pub struct ExRenminbiCurrency(RenminbiCurrency);

/// Parameters for the random creation of [RenminbiCurrency].
pub struct RenminbiParams {
    /// The style of the generated currency - for example, financial.
    pub style: CurrencyStyle,
    /// The range of the integer part, in yuan.
    pub yuan_range: RangeInclusive<u64>,
    /// Whether the `角` part is generated; otherwise it is zero.
    pub include_dimes: bool,
    /// Whether the `分` part is generated; otherwise it is zero.
    pub include_cents: bool,
}

/// The [RenminbiCurrency] of `chinese_format` with these yuan, dimes (below
/// 10), cents (below 10) and style.
pub uninterp spec fn renminbi_of(yuan: u64, dimes: u8, cents: u8, style: CurrencyStyle) -> RenminbiCurrency;

/// Relies on RenminbiCurrencyBuilder (new, the with_ setters, build): the
/// build fails exactly when the dimes or the cents are not below 10.
#[verifier::external_body]
fn build_renminbi(yuan: u64, dimes: u8, cents: u8, style: CurrencyStyle) -> (r: Option<
    RenminbiCurrency,
>)
    ensures
        r == (if dimes < 10 && cents < 10 {
            Some(renminbi_of(yuan, dimes, cents, style))
        } else {
            None::<RenminbiCurrency>
        }),
{
    RenminbiCurrencyBuilder::new()
        .with_style(style)
        .with_yuan(yuan)
        .with_dimes(dimes)
        .with_cents(cents)
        .build()
        .ok()
}

/// An amount that these parameters allow: yuan within the range, each minor
/// part a digit if it is asked for and zero otherwise, and the given style.
pub open spec fn renminbi_fits(params: RenminbiParams, r: RenminbiCurrency) -> bool {
    exists|yuan: u64, dimes: u8, cents: u8|
        {
            &&& params.yuan_range@.start <= yuan <= params.yuan_range@.end
            &&& dimes <= 9
            &&& cents <= 9
            &&& (!params.include_dimes ==> dimes == 0)
            &&& (!params.include_cents ==> cents == 0)
            &&& r == #[trigger] renminbi_of(yuan, dimes, cents, params.style)
        }
}

/// An amount drawn with neither minor part asked for has only its yuan: its
/// dimes and cents are zero.
pub proof fn renminbi_whole_units_only(params: RenminbiParams, r: RenminbiCurrency)
    requires
        renminbi_fits(params, r),
        !params.include_dimes,
        !params.include_cents,
    ensures
        exists|yuan: u64|
            {
                &&& params.yuan_range@.start <= yuan <= params.yuan_range@.end
                &&& r == #[trigger] renminbi_of(yuan, 0, 0, params.style)
            },
{
    let (yuan, dimes, cents) = choose|yuan: u64, dimes: u8, cents: u8|
        {
            &&& params.yuan_range@.start <= yuan <= params.yuan_range@.end
            &&& dimes <= 9
            &&& cents <= 9
            &&& (!params.include_dimes ==> dimes == 0)
            &&& (!params.include_cents ==> cents == 0)
            &&& r == #[trigger] renminbi_of(yuan, dimes, cents, params.style)
        };
    assert(r == renminbi_of(yuan, 0, 0, params.style));
}

impl<R: RawGenerator> ChineseFormatGenerator<R> {
    /// Creates a random [RenminbiCurrency]: the yuan are drawn from the
    /// range, and each requested minor part from `0..=9`.
    pub fn renminbi(&self, params: RenminbiParams) -> (r: RenminbiCurrency)
        requires
            !params.yuan_range@.exhausted,
            params.yuan_range@.start <= params.yuan_range@.end,
        ensures
            renminbi_fits(params, r),
    {
        let yuan = self.raw_generator.u64(params.yuan_range);
        let dimes: u8 = if params.include_dimes {
            self.raw_generator.u8(0..=9)
        } else {
            0
        };
        let cents: u8 = if params.include_cents {
            self.raw_generator.u8(0..=9)
        } else {
            0
        };
        build_renminbi(yuan, dimes, cents, params.style).unwrap()
    }
}

} // verus!
