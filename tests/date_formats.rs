use elastic_types::date::{
    split_millis, BasicDateTime, BasicDateTimeNoMillis, ChronoFormat, Date, DateFormat, EpochMillis,
};

#[test]
fn chrono() {
    let date = Date::<ChronoFormat>::parse("2015-07-03T14:55:02Z").unwrap();

    assert_eq!(
        (2015i32, 7u32, 3u32, 14u32, 55u32, 2u32),
        (date.year(), date.month(), date.day(), date.hour(), date.minute(), date.second())
    );

    let fmtd = date.format();
    assert_eq!("2015-07-03T14:55:02Z", fmtd.as_str());
}

#[test]
fn formats_basic_datetime_no_millis() {
    let date = Date::<BasicDateTimeNoMillis>::parse("20150703T145502Z").unwrap();

    assert_eq!(
        (2015i32, 7u32, 3u32, 14u32, 55u32, 2u32),
        (date.year(), date.month(), date.day(), date.hour(), date.minute(), date.second())
    );

    let fmtd = date.format();
    assert_eq!("20150703T145502Z", fmtd.as_str());
}

#[test]
fn formats_basic_date_time() {
    let date = Date::<BasicDateTime>::parse("20150703T145502.478Z").unwrap();

    assert_eq!(
        (2015i32, 7u32, 3u32, 14u32, 55u32, 2u32, 478u32),
        (
            date.year(),
            date.month(),
            date.day(),
            date.hour(),
            date.minute(),
            date.second(),
            date.nanosecond() / 1000000
        )
    );

    let fmtd = date.format();
    assert_eq!("20150703T145502.478Z", fmtd.as_str());
}

#[test]
fn formats_epoch_millis() {
    let date = Date::<EpochMillis>::parse("1435935302478").unwrap();

    assert_eq!(
        (2015i32, 7u32, 3u32, 14u32, 55u32, 2u32, 478u32),
        (
            date.year(),
            date.month(),
            date.day(),
            date.hour(),
            date.minute(),
            date.second(),
            date.nanosecond() / 1000000
        )
    );

    let fmtd = date.format();
    assert_eq!("1435935302478", fmtd.as_str());
}

#[test]
fn epoch_millis_no_millis() {
    let date = Date::<EpochMillis>::parse("1435935302000").unwrap();

    assert_eq!(
        (2015i32, 7u32, 3u32, 14u32, 55u32, 2u32, 0u32),
        (
            date.year(),
            date.month(),
            date.day(),
            date.hour(),
            date.minute(),
            date.second(),
            date.nanosecond() / 1000000
        )
    );

    let fmtd = date.format();
    assert_eq!("1435935302000", fmtd.as_str());
}

#[test]
fn epoch_millis_minus() {
    let date = Date::<EpochMillis>::parse("-8031171898478").unwrap();

    assert_eq!(
        (1715i32, 7u32, 3u32, 14u32, 55u32, 1u32, 522u32),
        (
            date.year(),
            date.month(),
            date.day(),
            date.hour(),
            date.minute(),
            date.second(),
            date.nanosecond() / 1000000
        )
    );

    let fmtd = date.format();
    assert_eq!("-8031171898478", fmtd.as_str());
}

#[test]
fn epoch_millis_minus_no_millis() {
    let date = Date::<EpochMillis>::parse("-8031171898000").unwrap();

    assert_eq!(
        (1715i32, 7u32, 3u32, 14u32, 55u32, 2u32, 0u32),
        (
            date.year(),
            date.month(),
            date.day(),
            date.hour(),
            date.minute(),
            date.second(),
            date.nanosecond() / 1000000
        )
    );

    let fmtd = date.format();
    assert_eq!("-8031171898000", fmtd.as_str());
}

#[test]
fn epoch_millis_very_short() {
    let date = Date::<EpochMillis>::parse("100").unwrap();

    assert_eq!(
        (1970i32, 1u32, 1u32, 0u32, 0u32, 0u32, 100u32),
        (
            date.year(),
            date.month(),
            date.day(),
            date.hour(),
            date.minute(),
            date.second(),
            date.nanosecond() / 1000000
        )
    );

    let fmtd = date.format();
    assert_eq!("100", fmtd.as_str());
}

#[test]
fn epoch_millis_short() {
    let date = Date::<EpochMillis>::parse("5100").unwrap();

    assert_eq!(
        (1970i32, 1u32, 1u32, 0u32, 0u32, 5u32, 100u32),
        (
            date.year(),
            date.month(),
            date.day(),
            date.hour(),
            date.minute(),
            date.second(),
            date.nanosecond() / 1000000
        )
    );

    let fmtd = date.format();
    assert_eq!("5100", fmtd.as_str());
}

#[test]
fn epoch_millis_very_short_minus() {
    let date = Date::<EpochMillis>::parse("-100").unwrap();

    assert_eq!(
        (1969i32, 12u32, 31u32, 23u32, 59u32, 59u32, 900u32),
        (
            date.year(),
            date.month(),
            date.day(),
            date.hour(),
            date.minute(),
            date.second(),
            date.nanosecond() / 1000000
        )
    );

    let fmtd = date.format();
    assert_eq!("-100", fmtd.as_str());
}

#[test]
fn epoch_millis_short_minus() {
    let date = Date::<EpochMillis>::parse("-5100").unwrap();

    assert_eq!(
        (1969i32, 12u32, 31u32, 23u32, 59u32, 54u32, 900u32),
        (
            date.year(),
            date.month(),
            date.day(),
            date.hour(),
            date.minute(),
            date.second(),
            date.nanosecond() / 1000000
        )
    );

    let fmtd = date.format();
    assert_eq!("-5100", fmtd.as_str());
}

#[test]
fn epoch_millis_zero() {
    let date = Date::<EpochMillis>::parse("0").unwrap();

    assert_eq!(
        (1970i32, 1u32, 1u32, 0u32, 0u32, 0u32, 0u32),
        (
            date.year(),
            date.month(),
            date.day(),
            date.hour(),
            date.minute(),
            date.second(),
            date.nanosecond() / 1000000
        )
    );

    let fmtd = date.format();
    assert_eq!("0", fmtd.as_str());
}

#[test]
fn date_format_basic_datetime_no_millis() {
    let date = Date::<BasicDateTimeNoMillis>::parse("20150703T145502Z").unwrap();

    assert_eq!(
        (2015i32, 7u32, 3u32, 14u32, 55u32, 2u32),
        (date.year(), date.month(), date.day(), date.hour(), date.minute(), date.second())
    );

    let fmtd = date.format();
    assert_eq!("20150703T145502Z", fmtd.as_str());
}

#[test]
fn date_format_basic_date_time() {
    let date = Date::<BasicDateTime>::parse("20150703T145502.478Z").unwrap();

    assert_eq!(
        (2015i32, 7u32, 3u32, 14u32, 55u32, 2u32, 478u32),
        (
            date.year(),
            date.month(),
            date.day(),
            date.hour(),
            date.minute(),
            date.second(),
            date.nanosecond() / 1000000
        )
    );

    let fmtd = date.format();
    assert_eq!("20150703T145502.478Z", fmtd.as_str());
}

#[test]
fn date_format_epoch_millis() {
    let date = Date::<EpochMillis>::parse("1435935302478").unwrap();

    assert_eq!(
        (2015i32, 7u32, 3u32, 14u32, 55u32, 2u32, 478u32),
        (
            date.year(),
            date.month(),
            date.day(),
            date.hour(),
            date.minute(),
            date.second(),
            date.nanosecond() / 1000000
        )
    );

    let fmtd = date.format();
    assert_eq!("1435935302478", fmtd.as_str());
}

#[test]
fn epoch_millis_negative() {
    let date = Date::<EpochMillis>::parse("-8031171898478").unwrap();

    assert_eq!(
        (1715i32, 7u32, 3u32, 14u32, 55u32, 1u32, 522u32),
        (
            date.year(),
            date.month(),
            date.day(),
            date.hour(),
            date.minute(),
            date.second(),
            date.nanosecond() / 1000000
        )
    );

    let fmtd = date.format();
    assert_eq!("-8031171898478", fmtd.as_str());
}

#[test]
fn chrono_name() {
    assert_eq!("yyyy-MM-dd'T'HH:mm:ssZ", ChronoFormat::name());
}

#[test]
fn basic_datetime_no_millis_name() {
    assert_eq!("basic_date_time_no_millis", BasicDateTimeNoMillis::name());
}

#[test]
fn basic_date_time_name() {
    assert_eq!("basic_date_time", BasicDateTime::name());
}

#[test]
fn epoch_millis_name() {
    assert_eq!("epoch_millis", EpochMillis::name());
}

#[test]
fn epoch_millis_sign_boundary() {
    assert_eq!(split_millis(-100), (-1, 900));
    assert_eq!(split_millis(-1000), (-1, 0));
    assert_eq!(split_millis(-1001), (-2, 999));
    assert_eq!(split_millis(0), (0, 0));
    assert_eq!(split_millis(1999), (1, 999));
}

#[test]
fn epoch_millis_rejects_bad_text() {
    for text in ["", "-", "+", "12a", "1.5", "9223372036854775808"] {
        let e = Date::<EpochMillis>::parse(text).unwrap_err();
        assert_eq!(e.input, text);
        assert_eq!(e.format, "epoch_millis");
    }
    let d = Date::<EpochMillis>::parse("+1000").unwrap();
    assert_eq!(d.second(), 1);
    assert_eq!(d.format(), "1000");
}

#[test]
fn layouts_reject_bad_dates() {
    for text in ["20150230T145502.478Z", "20151303T145502.478Z", "20150703T245502.478Z", "20150703T145502.478", "2015070T145502.478Z", "20150703T145502.478Zx"] {
        let e = Date::<BasicDateTime>::parse(text).unwrap_err();
        assert_eq!(e.format, "basic_date_time");
    }
    assert!(Date::<BasicDateTime>::parse("20160229T000000.000Z").is_ok());
    assert!(Date::<ChronoFormat>::parse("2015-07-03 14:55:02Z").is_err());
}

#[test]
fn layout_round_trips() {
    let d = Date::<BasicDateTime>::parse("00010101T000000.001Z").unwrap();
    assert_eq!(d.format(), "00010101T000000.001Z");
    let e = Date::<ChronoFormat>::parse("1999-12-31T23:59:59Z").unwrap();
    assert_eq!(Date::<BasicDateTimeNoMillis>::new(e.value()).format(), "19991231T235959Z");
    assert_eq!(Date::<EpochMillis>::new(e.value()).format(), "946684799000");
}

#[test]
fn epoch_millis_range_edges() {
    let last = Date::<EpochMillis>::parse("8210266876799999").unwrap();
    assert_eq!((last.year(), last.month(), last.day()), (262142, 12, 31));
    assert_eq!((last.hour(), last.minute(), last.second()), (23, 59, 59));
    assert_eq!(last.format(), "8210266876799999");
    assert!(Date::<EpochMillis>::parse("8210266876800000").is_err());
    let first = Date::<EpochMillis>::parse("-8334601228800000").unwrap();
    assert_eq!((first.year(), first.month(), first.day()), (-262143, 1, 1));
    assert_eq!(first.format(), "-8334601228800000");
    assert!(Date::<EpochMillis>::parse("-8334601228800001").is_err());
}
