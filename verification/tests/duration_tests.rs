use webm_jobs::duration::{parse_seconds, scan_seconds, DEFAULT_DURATION_MS};

fn chars(s: &str) -> Vec<char> {
    s.chars().collect()
}

#[test]
fn default_duration_is_one_second() {
    assert_eq!(DEFAULT_DURATION_MS, 1000);
}

#[test]
fn parse_seconds_reads_what_the_prober_prints() {
    assert_eq!(parse_seconds("10.023000\n"), Some(10_023));
    assert_eq!(parse_seconds("10.000000"), Some(10_000));
    assert_eq!(parse_seconds("  3.5  "), Some(3_500));
    assert_eq!(parse_seconds("0.040000"), Some(40));
    assert_eq!(parse_seconds("7"), Some(7_000));
}

#[test]
fn parse_seconds_takes_a_bare_point_on_either_side() {
    assert_eq!(parse_seconds(".5"), Some(500));
    assert_eq!(parse_seconds("5."), Some(5_000));
    assert_eq!(parse_seconds("."), None);
}

#[test]
fn parse_seconds_cuts_off_below_the_millisecond() {
    assert_eq!(parse_seconds("1.9999"), Some(1_999));
    assert_eq!(parse_seconds("0.0009"), Some(0));
    assert_eq!(parse_seconds("0.12"), Some(120));
    assert_eq!(parse_seconds("0.1"), Some(100));
}

#[test]
fn parse_seconds_refuses_what_is_no_length() {
    let texts = [
        "", "   ", "N/A", "abc", "-1.0", "+1.0", "1e3", "1.2.3", "1,5", "1 .5", "inf", "NaN", "0x10",
    ];
    for text in texts {
        assert_eq!(parse_seconds(text), None, "text {:?}", text);
    }
}

#[test]
fn parse_seconds_holds_huge_lengths_at_the_maximum() {
    assert_eq!(parse_seconds("18446744073709551.615"), Some(u64::MAX));
    assert_eq!(parse_seconds("18446744073709551.614"), Some(u64::MAX - 1));
    assert_eq!(parse_seconds("18446744073709551.616"), Some(u64::MAX));
    assert_eq!(parse_seconds("18446744073709552"), Some(u64::MAX));
    assert_eq!(parse_seconds("99999999999999999999999999999999"), Some(u64::MAX));
}

#[test]
fn parse_seconds_agrees_with_float_parsing_on_plain_decimals() {
    for whole in [0u64, 1, 9, 10, 59, 600, 7200] {
        for millis in [0u64, 1, 40, 500, 999] {
            let text = format!("{}.{:03}000", whole, millis);
            let seconds: f64 = text.parse().unwrap();
            let expected = Some((seconds * 1000.0).round() as u64);
            assert_eq!(parse_seconds(&text), expected, "text {:?}", text);
        }
    }
}

#[test]
fn scan_seconds_reads_a_stretch() {
    let v = chars("1920,1080,12.5");
    assert_eq!(scan_seconds(&v, 10, 14), Some(12_500));
    assert_eq!(scan_seconds(&v, 0, 4), Some(1_920_000));
    assert_eq!(scan_seconds(&v, 0, 9), None);
    assert_eq!(scan_seconds(&v, 4, 4), None);
}
