use media_pipeline::duration::{is_white_space, parse_duration, DurationFault, MediaDuration};
use media_pipeline::probe::{get_duration, MetadataError, OutputStream};

fn nanos(text: &str) -> Option<u64> {
    parse_duration(text).ok().map(|d| d.as_nanos())
}

fn fault(text: &str) -> Option<DurationFault> {
    parse_duration(text).err()
}

#[test]
fn tool_output_resolves_to_nanoseconds() {
    assert_eq!(nanos("120.000000\n"), Some(120_000_000_000));
    assert_eq!(nanos("3725.482000\n"), Some(3_725_482_000_000));
    assert_eq!(nanos("0.040000"), Some(40_000_000));
    assert_eq!(nanos("7"), Some(7_000_000_000));
}

#[test]
fn white_space_at_the_ends_is_dropped() {
    assert_eq!(nanos("  12.5\r\n"), Some(12_500_000_000));
    assert_eq!(nanos("\t1\t"), Some(1_000_000_000));
    assert_eq!(nanos("\u{2003}7\u{00a0}"), Some(7_000_000_000));
    assert_eq!(nanos("1 2"), None);
}

#[test]
fn point_and_sign_forms() {
    assert_eq!(nanos("+3"), Some(3_000_000_000));
    assert_eq!(nanos(".5"), Some(500_000_000));
    assert_eq!(nanos("5."), Some(5_000_000_000));
    assert_eq!(nanos("0007.25"), Some(7_250_000_000));
    assert_eq!(nanos("."), None);
    assert_eq!(nanos("+"), None);
    assert_eq!(nanos("+."), None);
    assert_eq!(nanos("++1"), None);
    assert_eq!(nanos("1.2.3"), None);
    assert_eq!(nanos("-1"), None);
    assert_eq!(nanos("-0.5"), None);
}

#[test]
fn exponent_forms() {
    assert_eq!(nanos("1e3"), Some(1_000_000_000_000));
    assert_eq!(nanos("1E3"), Some(1_000_000_000_000));
    assert_eq!(nanos("1.5e2"), Some(150_000_000_000));
    assert_eq!(nanos("1.2e+2\n"), Some(120_000_000_000));
    assert_eq!(nanos("12e-1"), Some(1_200_000_000));
    assert_eq!(nanos("120000e-3"), Some(120_000_000_000));
    assert_eq!(nanos("5.e1"), Some(50_000_000_000));
    assert_eq!(nanos(".5e1"), Some(5_000_000_000));
    assert_eq!(nanos("1e0"), Some(1_000_000_000));
    assert_eq!(nanos("1e-0"), Some(1_000_000_000));
    assert_eq!(nanos("1e-9"), Some(1));
    assert_eq!(nanos("123456789e-17"), Some(1));
    assert_eq!(nanos("0.000000000000000000001e21"), Some(1_000_000_000));
    assert_eq!(nanos("1e10"), Some(10_000_000_000_000_000_000));
    assert_eq!(nanos("1e0010"), Some(10_000_000_000_000_000_000));
}

#[test]
fn exponent_forms_that_are_no_numbers() {
    for text in ["e3", ".e3", "1e", "1e+", "1e-", "1e3.5", "1e 3", "1ee3", "1e3e3", "1x3", "e"] {
        assert_eq!(fault(text), Some(DurationFault::NotANumber));
    }
}

#[test]
fn exponents_out_of_range() {
    assert_eq!(fault("1e-10"), Some(DurationFault::Zero));
    assert_eq!(fault("0e5"), Some(DurationFault::Zero));
    assert_eq!(fault("0.0e99999999999999999999999999999999999999999"), Some(DurationFault::Zero));
    assert_eq!(fault("7e-99999999999999999999999999999999999999999"), Some(DurationFault::Zero));
    assert_eq!(fault("1e11"), Some(DurationFault::TooLarge));
    assert_eq!(fault("2e10"), Some(DurationFault::TooLarge));
    assert_eq!(fault("1e30"), Some(DurationFault::TooLarge));
    assert_eq!(fault("0.001e99999999999999999999999999999999999999999"), Some(DurationFault::TooLarge));
    assert_eq!(fault("1e1000000000000000000000000000000"), Some(DurationFault::TooLarge));
    assert_eq!(fault("1e999999999999999999999999999999"), Some(DurationFault::TooLarge));
}

#[test]
fn decimal_places_beyond_the_ninth_are_dropped() {
    assert_eq!(nanos("0.1234567"), Some(123_456_700));
    assert_eq!(nanos("0.1234567891"), Some(123_456_789));
    assert_eq!(nanos("1.9999999999999"), Some(1_999_999_999));
    assert_eq!(nanos("0.12"), Some(120_000_000));
    assert_eq!(nanos("0.0000001"), Some(100));
    assert_eq!(nanos("0.1234567891x"), None);
}

#[test]
fn zero_is_an_error() {
    assert_eq!(nanos("0"), None);
    assert_eq!(nanos("0.000000\n"), None);
    assert_eq!(nanos("000.0"), None);
    assert_eq!(nanos("0.0000000001"), None);
    assert_eq!(fault("0.0000000009"), Some(DurationFault::Zero));
}

#[test]
fn text_that_is_no_number_is_an_error() {
    assert_eq!(nanos(""), None);
    assert_eq!(nanos("\n"), None);
    assert_eq!(nanos("N/A"), None);
    assert_eq!(nanos("abc"), None);
    assert_eq!(nanos("12s"), None);
    assert_eq!(nanos("inf"), None);
    assert_eq!(nanos("nan"), None);
    assert_eq!(nanos("infinity"), None);
    assert_eq!(nanos("1,5"), None);
}

#[test]
fn largest_duration_that_fits() {
    assert_eq!(nanos("18446744073.709551615"), Some(u64::MAX));
    assert_eq!(nanos("18446744073.709551616"), None);
    assert_eq!(nanos("18446744074"), None);
    assert_eq!(nanos("1844674407.3709551615e1"), Some(u64::MAX));
    assert_eq!(nanos("99999999999999999999999999999999"), None);
    assert_eq!(nanos("99999999999999999999999999999999e-30"), Some(99_999_999_999));
}

#[test]
fn duration_from_nanos_rejects_zero() {
    assert_eq!(MediaDuration::from_nanos(0), None);
    assert_eq!(MediaDuration::from_nanos(1).map(|d| d.as_nanos()), Some(1));
}

#[test]
fn white_space_is_what_unicode_says() {
    for c in ['\t', '\n', '\u{b}', '\u{c}', '\r', ' ', '\u{85}', '\u{a0}', '\u{1680}', '\u{2000}',
        '\u{200a}', '\u{2028}', '\u{2029}', '\u{202f}', '\u{205f}', '\u{3000}']
    {
        assert!(is_white_space(c));
        assert!(c.is_whitespace());
    }
    for c in ['a', '0', '\u{8}', '\u{e}', '\u{200b}', '\u{feff}', '\u{180e}'] {
        assert!(!is_white_space(c));
        assert!(!c.is_whitespace());
    }
}

#[test]
fn white_space_agrees_with_std_on_every_character() {
    let mut code: u32 = 0;
    while code <= 0x10_ffff {
        if let Some(c) = char::from_u32(code) {
            assert_eq!(is_white_space(c), c.is_whitespace());
        }
        code += 1;
    }
}

#[test]
fn duration_query_output_resolves() {
    let d = get_duration(b"120.000000\n".to_vec()).unwrap();
    assert_eq!(d.as_nanos(), 120_000_000_000);
}

#[test]
fn every_fault_has_its_reason() {
    assert_eq!(fault(""), Some(DurationFault::Empty));
    assert_eq!(fault("\n"), Some(DurationFault::Empty));
    assert_eq!(fault(" \t\u{a0}"), Some(DurationFault::Empty));
    assert_eq!(fault("N/A\n"), Some(DurationFault::NotANumber));
    assert_eq!(fault("abc\n"), Some(DurationFault::NotANumber));
    assert_eq!(fault("1:00\n"), Some(DurationFault::NotANumber));
    assert_eq!(fault("+"), Some(DurationFault::NotANumber));
    assert_eq!(fault("."), Some(DurationFault::NotANumber));
    assert_eq!(fault("-1"), Some(DurationFault::NotANumber));
    assert_eq!(fault("0"), Some(DurationFault::Zero));
    assert_eq!(fault("0.000000\n"), Some(DurationFault::Zero));
    assert_eq!(fault("18446744074"), Some(DurationFault::TooLarge));
    assert_eq!(fault("99999999999999999999999999999999"), Some(DurationFault::TooLarge));
    assert_eq!(fault("120.000000\n"), None);
    assert_eq!(DurationFault::Empty.reason(), "cannot parse float from empty string");
    assert_eq!(DurationFault::NotANumber.reason(), "invalid float literal");
    assert_eq!(DurationFault::Zero.reason(), "duration is zero");
    assert_eq!(DurationFault::TooLarge.reason(), "duration is out of range");
}

#[test]
fn zero_duration_is_a_parse_error() {
    assert_eq!(
        get_duration(b"0.000000\n".to_vec()),
        Err(MetadataError::OutputParseError(DurationFault::Zero))
    );
    assert_eq!(
        get_duration(b"0".to_vec()),
        Err(MetadataError::OutputParseError(DurationFault::Zero))
    );
}

#[test]
fn unparsable_duration_is_a_parse_error() {
    for output in ["N/A\n", "abc\n", "1:00\n"] {
        assert_eq!(
            get_duration(output.as_bytes().to_vec()),
            Err(MetadataError::OutputParseError(DurationFault::NotANumber))
        );
    }
    for output in ["", "\n"] {
        assert_eq!(
            get_duration(output.as_bytes().to_vec()),
            Err(MetadataError::OutputParseError(DurationFault::Empty))
        );
    }
}

#[test]
fn parse_error_text_carries_the_reason() {
    for output in ["", "\n", "N/A\n", "abc\n", "1:00\n", "0\n"] {
        let message = get_duration(output.as_bytes().to_vec()).unwrap_err().message();
        assert!(message.starts_with("Failed to parse duration: "));
        assert!(message.len() > "Failed to parse duration: ".len());
    }
    assert_eq!(
        get_duration(Vec::new()).unwrap_err().message(),
        "Failed to parse duration: cannot parse float from empty string"
    );
    assert_eq!(
        get_duration(b"N/A\n".to_vec()).unwrap_err().message(),
        "Failed to parse duration: invalid float literal"
    );
}

#[test]
fn duration_output_that_is_not_utf8_is_an_encoding_error() {
    let error = get_duration(vec![0x31, 0xff, 0x32]).unwrap_err();
    match &error {
        MetadataError::InvalidUtf8 { stream, reason } => {
            assert_eq!(*stream, OutputStream::Stdout);
            assert!(!reason.is_empty());
        }
        other => panic!("expected an encoding error, got {:?}", other),
    }
    assert!(error.message().starts_with("Failed to parse ffprobe output as UTF-8: "));
}
