use media_pipeline::timecode::{elapsed_in_line, parse_time_to_seconds, Elapsed};

#[test]
fn timecode_parses_to_hundredths() {
    assert_eq!(parse_time_to_seconds("00:00:30.00"), Some(Elapsed { hundredths: 3_000 }));
    assert_eq!(parse_time_to_seconds("01:02:03.45"), Some(Elapsed { hundredths: 372_345 }));
    assert_eq!(parse_time_to_seconds("00:00:00.00"), Some(Elapsed { hundredths: 0 }));
    assert_eq!(parse_time_to_seconds("99:99:99.99"), Some(Elapsed { hundredths: 36_243_999 }));
}

#[test]
fn every_two_digit_field_counts_with_its_weight() {
    for hours in [0u64, 1, 9, 10, 23, 99] {
        for minutes in [0u64, 7, 59, 99] {
            for seconds in [0u64, 30, 59] {
                for fraction in [0u64, 4, 50, 99] {
                    let text = format!("{:02}:{:02}:{:02}.{:02}", hours, minutes, seconds, fraction);
                    let expected = (hours * 3600 + minutes * 60 + seconds) * 100 + fraction;
                    assert_eq!(
                        parse_time_to_seconds(&text),
                        Some(Elapsed { hundredths: expected })
                    );
                }
            }
        }
    }
}

#[test]
fn wrong_segment_count_is_no_match() {
    assert_eq!(parse_time_to_seconds(""), None);
    assert_eq!(parse_time_to_seconds("30.00"), None);
    assert_eq!(parse_time_to_seconds("00:30.00"), None);
    assert_eq!(parse_time_to_seconds("00:00:00:30.00"), None);
    assert_eq!(parse_time_to_seconds("00:00:30.00:"), None);
}

#[test]
fn non_numeric_segment_is_no_match() {
    assert_eq!(parse_time_to_seconds("aa:00:30.00"), None);
    assert_eq!(parse_time_to_seconds("00:bb:30.00"), None);
    assert_eq!(parse_time_to_seconds("00:00:3x.00"), None);
    assert_eq!(parse_time_to_seconds("00:00:30.0y"), None);
    assert_eq!(parse_time_to_seconds("-1:00:30.00"), None);
    assert_eq!(parse_time_to_seconds("\u{0660}\u{0660}:00:30.00"), None);
}

#[test]
fn other_shapes_are_no_match() {
    assert_eq!(parse_time_to_seconds("00:00:30"), None);
    assert_eq!(parse_time_to_seconds("00:00:30,00"), None);
    assert_eq!(parse_time_to_seconds("0:00:30.00"), None);
    assert_eq!(parse_time_to_seconds("00:00:30.000"), None);
    assert_eq!(parse_time_to_seconds(" 00:00:30.00"), None);
    assert_eq!(parse_time_to_seconds("00.00:30:00"), None);
}

#[test]
fn marker_is_found_in_a_diagnostic_line() {
    let line = "size=    1024kB time=00:01:05.50 bitrate= 128.0kbits/s speed=42x";
    assert_eq!(elapsed_in_line(line), Some(Elapsed { hundredths: 6_550 }));
    assert_eq!(elapsed_in_line("time=10:00:00.00"), Some(Elapsed { hundredths: 3_600_000 }));
}

#[test]
fn first_marker_of_a_line_wins() {
    let line = "time=00:00:01.00 time=00:00:02.00";
    assert_eq!(elapsed_in_line(line), Some(Elapsed { hundredths: 100 }));
}

#[test]
fn lines_without_a_marker_are_no_match() {
    assert_eq!(elapsed_in_line("Stream #0:0: Audio: mp3 (libmp3lame)"), None);
    assert_eq!(elapsed_in_line("time=N/A bitrate=N/A"), None);
    assert_eq!(elapsed_in_line("time=00:00:5.00"), None);
    assert_eq!(elapsed_in_line("00:00:05.00"), None);
    assert_eq!(elapsed_in_line(""), None);
}

#[test]
fn marker_with_digits_outside_ascii_is_no_match() {
    assert_eq!(elapsed_in_line("time=\u{0660}\u{0661}:00:00.00"), None);
}
