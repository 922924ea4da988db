use chinese_format::currency::CurrencyStyle;
use chinese_format::gregorian::{DatePattern, WeekFormat};
use chinese_format::{ChineseFormat, Count, CountBase, Fraction, Variant};
use chinese_rand::gregorian::{DateParams, LinearTimeParams};
use chinese_rand::{
    ChineseFormatGenerator, FastRandGenerator, InvalidLowerBound, RawGenerator, RenminbiParams,
};
use digit_sequence::DigitSequence;

fn generator() -> ChineseFormatGenerator<FastRandGenerator> {
    ChineseFormatGenerator::new(FastRandGenerator::new())
}

#[test]
fn raw_u128_seeded() {
    fastrand::seed(90);
    assert_eq!(FastRandGenerator::new().u128(0..=50000), 29466);
    fastrand::seed(90);
    assert_eq!(FastRandGenerator::default().u128(0..=50000), 29466);
}

#[test]
fn raw_full_ranges_seeded() {
    let raw = FastRandGenerator::new();
    fastrand::seed(90);
    assert_eq!(raw.u8(0..=u8::MAX), 177);
    fastrand::seed(90);
    assert_eq!(raw.u16(0..=u16::MAX), 51377);
    fastrand::seed(90);
    assert_eq!(raw.u32(0..=u32::MAX), 2982070449);
    fastrand::seed(90);
    assert_eq!(raw.u64(0..=u64::MAX), 10871161991276185777);
    fastrand::seed(90);
    assert_eq!(raw.u128(0..=u128::MAX), 200537543036910508246661533454648102841);
    fastrand::seed(90);
    assert_eq!(raw.i128(i128::MIN..=i128::MAX), -139744823884027955216713073977120108615);
    fastrand::seed(90);
    assert!(!raw.bool());
}

#[test]
fn raw_values_stay_in_range() {
    let raw = FastRandGenerator::new();
    for _ in 0..1000 {
        let a = raw.u8(3..=9);
        assert!((3..=9).contains(&a));
        let b = raw.u16(1000..=1001);
        assert!((1000..=1001).contains(&b));
        let c = raw.u32(7..=7);
        assert_eq!(c, 7);
        let d = raw.u64(u64::MAX - 1..=u64::MAX);
        assert!(d >= u64::MAX - 1);
        let e = raw.i128(-5..=-2);
        assert!((-5..=-2).contains(&e));
        let f = raw.u128(0..=0);
        assert_eq!(f, 0);
    }
}

#[test]
fn readme_fraction() {
    let generator = generator();
    fastrand::seed(90);
    let fraction: Fraction = generator.fraction(1..=10, 1..=10).unwrap();
    assert_eq!(fraction.to_chinese(Variant::Simplified), "六分之七");
}

#[test]
fn integer_seeded_and_fixed() {
    let generator = generator();
    fastrand::seed(90);
    assert_eq!(
        generator.integer(i128::MIN..=i128::MAX),
        -139744823884027955216713073977120108615
    );
    assert_eq!(generator.integer(90..=90), 90);
}

#[test]
fn fraction_seeded_fixed_and_rejected() {
    let generator = generator();
    fastrand::seed(90);
    let fraction = generator.fraction(1..=u128::MAX, i128::MIN..=i128::MAX).unwrap();
    assert_eq!(
        fraction,
        Fraction::try_new(
            200537543036910508246661533454648102841,
            -116432671981703681494469200238719654801
        )
        .unwrap()
    );
    assert_eq!(generator.fraction(5..=5, 4..=4), Ok(Fraction::try_new(5, 4).unwrap()));
    assert_eq!(generator.fraction(0..=5, 4..=4), Err(InvalidLowerBound(0)));
}

#[test]
fn fraction_denominator_within_range() {
    let generator = generator();
    for _ in 0..500 {
        let fraction = generator.fraction(1..=3, -2..=2).unwrap();
        assert!((1..=3).contains(&fraction.denominator()));
        assert!((-2..=2).contains(&fraction.numerator()));
    }
}

#[test]
fn count_seeded_and_fixed() {
    let generator = generator();
    fastrand::seed(90);
    assert_eq!(
        generator.count(0..=CountBase::MAX),
        Count(200537543036910508246661533454648102841)
    );
    assert_eq!(generator.count(90..=90), Count(90));
}

#[test]
fn digit_sequence_seeded() {
    let generator = generator();
    fastrand::seed(90);
    assert_eq!(generator.digit_sequence(0..=10), DigitSequence::from(3724260u32));
    assert_eq!(generator.digit_sequence(5..=5), DigitSequence::from(85241u32));
    assert_eq!(generator.digit_sequence(0..=0), DigitSequence::new());
}

#[test]
fn digit_sequence_fixed_length() {
    let generator = generator();
    for n in [0u8, 1, 7, 40] {
        let sequence = generator.digit_sequence(n..=n);
        let digits: Vec<u8> = sequence.iter().copied().collect();
        assert_eq!(digits.len(), n as usize);
        assert!(digits.iter().all(|d| *d <= 9));
    }
}

#[test]
fn decimal_seeded() {
    let generator = generator();
    fastrand::seed(90);
    let decimal = generator.decimal(i128::MIN..=i128::MAX, 0..=4);
    assert_eq!(decimal.integer, -139744823884027955216713073977120108615);
    assert_eq!(decimal.fractional, DigitSequence::from(242u8));
    let fixed = generator.decimal(90..=90, 5..=5);
    assert_eq!(fixed.integer, 90);
    assert_eq!(fixed.fractional, DigitSequence::from(85241u32));
    let zero = generator.decimal(0..=0, 0..=0);
    assert_eq!(zero.integer, 0);
    assert_eq!(zero.fractional, DigitSequence::new());
}

fn renminbi_params(style: CurrencyStyle, dimes: bool, cents: bool) -> RenminbiParams {
    RenminbiParams {
        style,
        yuan_range: 0..=500,
        include_dimes: dimes,
        include_cents: cents,
    }
}

#[test]
fn renminbi_seeded() {
    let generator = generator();
    let formal = CurrencyStyle::Everyday { formal: true };
    let cases = [
        (formal, true, true, "二百九十五元三角七分"),
        (formal, false, false, "二百九十五元"),
        (formal, true, false, "二百九十五元三角"),
        (formal, false, true, "二百九十五元三分"),
        (CurrencyStyle::Everyday { formal: false }, true, true, "二百九十五块三毛七分"),
        (CurrencyStyle::Financial, true, true, "贰佰玖拾伍元叁角柒分整"),
    ];
    for (style, dimes, cents, expected) in cases {
        fastrand::seed(90);
        let currency = generator.renminbi(renminbi_params(style, dimes, cents));
        assert_eq!(currency.to_chinese(Variant::Simplified), expected);
    }
    fastrand::seed(90);
    let fixed = generator.renminbi(RenminbiParams {
        style: formal,
        yuan_range: 73..=73,
        include_dimes: true,
        include_cents: true,
    });
    assert_eq!(fixed.to_chinese(Variant::Simplified), "七十三元三角七分");
}

fn date_text(params: DateParams) -> String {
    let generator = generator();
    fastrand::seed(90);
    generator.gregorian().date(params).to_chinese(Variant::Simplified).logograms
}

#[test]
fn date_seeded() {
    let cases = [
        (DatePattern::YearMonthDayWeekDay, Some(2000..=2019), true, Some(WeekFormat::Zhou), "二零一三年五月二十三号周一"),
        (DatePattern::YearMonthDayWeekDay, Some(2000..=2019), false, Some(WeekFormat::XingQi), "二零一三年五月二十三日星期一"),
        (DatePattern::YearMonthDay, Some(2000..=2019), false, None, "二零一三年五月二十三日"),
        (DatePattern::YearMonth, Some(2000..=2019), false, None, "二零一三年五月"),
        (DatePattern::Year, Some(2000..=2019), true, None, "二零一三年"),
        (DatePattern::Year, Some(2007..=2007), true, None, "二零零七年"),
        (DatePattern::Month, None, true, None, "九月"),
        (DatePattern::Day, None, true, None, "二十二号"),
        (DatePattern::Day, None, false, None, "二十二日"),
        (DatePattern::WeekDay, None, true, Some(WeekFormat::Zhou), "周四"),
    ];
    for (pattern, year_range, formal, week_format, expected) in cases {
        let text = date_text(DateParams { pattern, year_range, formal, week_format });
        assert_eq!(text, expected);
    }
}

#[test]
fn linear_time_seeded_without_day_part() {
    let generator = generator();
    fastrand::seed(90);
    let time = generator.gregorian().linear_time(LinearTimeParams {
        day_part: false,
        include_second: true,
    });
    assert_eq!(time.to_chinese(Variant::Simplified), "十六点二十分四十三秒");
    fastrand::seed(90);
    let time = generator.gregorian().linear_time(LinearTimeParams {
        day_part: false,
        include_second: false,
    });
    assert_eq!(time.to_chinese(Variant::Simplified), "十六点二十分");
}

#[test]
fn clock_parts_seeded() {
    let generator = generator();
    let gregorian = generator.gregorian();
    fastrand::seed(90);
    assert_eq!(gregorian.hour24().to_chinese(Variant::Simplified), "十六点");
    fastrand::seed(90);
    assert_eq!(gregorian.hour12().to_chinese(Variant::Simplified), "九点");
    fastrand::seed(90);
    assert_eq!(gregorian.minute().to_chinese(Variant::Simplified), "四十一分");
    fastrand::seed(90);
    assert_eq!(gregorian.second().to_chinese(Variant::Simplified), "四十一秒");
}

#[test]
fn delta_time_seeded() {
    let generator = generator();
    fastrand::seed(90);
    assert_eq!(
        generator.gregorian().delta_time().to_chinese(Variant::Simplified),
        "九点过二十分"
    );
    fastrand::seed(91);
    assert_eq!(
        generator.gregorian().delta_time().to_chinese(Variant::Simplified),
        "五点差六分"
    );
}

#[test]
fn dates_always_valid() {
    let generator = generator();
    let gregorian = generator.gregorian();
    for _ in 0..2000 {
        let date = gregorian.date(DateParams {
            pattern: DatePattern::YearMonthDay,
            year_range: Some(1899..=1901),
            formal: true,
            week_format: None,
        });
        // Rendering only succeeds on a date that the builder accepted.
        assert!(!date.to_chinese(Variant::Simplified).logograms.is_empty());
    }
}

#[test]
fn same_seed_same_results() {
    let run = || {
        let generator = generator();
        fastrand::seed(2024);
        let a = generator.integer(-1000..=1000);
        let b = generator.fraction(1..=99, -99..=99).unwrap();
        let c = generator.digit_sequence(0..=12);
        let d = generator
            .gregorian()
            .date(DateParams {
                pattern: DatePattern::YearMonthDay,
                year_range: None,
                formal: true,
                week_format: None,
            })
            .to_chinese(Variant::Simplified)
            .logograms;
        (a, b, c, d)
    };
    assert_eq!(run(), run());
}
