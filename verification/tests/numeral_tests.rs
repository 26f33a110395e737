use webm_jobs::numeral::{
    decimal_string, digit_of, hex_byte_string, hex_digit_str, scan_digits, scan_integer, MAX_CAP,
};

fn chars(s: &str) -> Vec<char> {
    s.chars().collect()
}

#[test]
fn digit_of_reads_the_ten_digits() {
    for (i, c) in "0123456789".chars().enumerate() {
        assert_eq!(digit_of(c), Some(i as u8));
    }
}

#[test]
fn digit_of_agrees_with_std_on_every_char() {
    for code in 0u32..=0x10FFFF {
        if let Some(c) = char::from_u32(code) {
            let expected = if c.is_ascii_digit() { c.to_digit(10).map(|d| d as u8) } else { None };
            assert_eq!(digit_of(c), expected, "char {:?}", c);
        }
    }
}

#[test]
fn scan_digits_reads_a_run() {
    let v = chars("x1234y");
    assert_eq!(scan_digits(&v, 1, 5, MAX_CAP), Some(1234));
    assert_eq!(scan_digits(&v, 1, 1, MAX_CAP), Some(0));
    assert_eq!(scan_digits(&v, 0, 5, MAX_CAP), None);
    assert_eq!(scan_digits(&v, 1, 6, MAX_CAP), None);
}

#[test]
fn scan_digits_holds_the_value_at_the_cap() {
    let v = chars("1234");
    assert_eq!(scan_digits(&v, 0, 4, 1000), Some(1000));
    assert_eq!(scan_digits(&v, 0, 4, 1234), Some(1234));
    assert_eq!(scan_digits(&v, 0, 4, 0), Some(0));
    let long = chars("99999999999999999999999999999999999999");
    assert_eq!(scan_digits(&long, 0, long.len(), MAX_CAP), Some(MAX_CAP));
}

#[test]
fn scan_digits_skips_leading_zeros() {
    let v = chars("000000000000000000000000000042");
    assert_eq!(scan_digits(&v, 0, v.len(), 100), Some(42));
}

#[test]
fn scan_integer_reads_signs() {
    let plus = chars("+17");
    let minus = chars("-17");
    let plain = chars("17");
    assert_eq!(scan_integer(&plus, 0, 3, MAX_CAP), Some((false, 17)));
    assert_eq!(scan_integer(&minus, 0, 3, MAX_CAP), Some((true, 17)));
    assert_eq!(scan_integer(&plain, 0, 2, MAX_CAP), Some((false, 17)));
}

#[test]
fn scan_integer_refuses_what_is_no_numeral() {
    for text in ["", "+", "-", "++1", "--1", "+-1", "1+", "1 ", " 1", "1_0", "0x10", "1.0", "٣"] {
        let v = chars(text);
        assert_eq!(scan_integer(&v, 0, v.len(), MAX_CAP), None, "text {:?}", text);
    }
}

#[test]
fn scan_integer_agrees_with_std_on_small_numbers() {
    for n in -300i32..=300 {
        for text in [format!("{}", n), format!("{:+}", n), format!("{:04}", n)] {
            let v = chars(&text);
            let expected =
                text.parse::<i32>().ok().map(|x| (text.starts_with('-'), x.unsigned_abs() as u64));
            assert_eq!(scan_integer(&v, 0, v.len(), MAX_CAP), expected, "text {:?}", text);
        }
    }
}

#[test]
fn decimal_string_writes_numbers() {
    assert_eq!(decimal_string(0), "0");
    assert_eq!(decimal_string(7), "7");
    assert_eq!(decimal_string(10), "10");
    assert_eq!(decimal_string(63), "63");
    assert_eq!(decimal_string(1920), "1920");
    assert_eq!(decimal_string(u64::MAX), "18446744073709551615");
}

#[test]
fn decimal_string_agrees_with_std() {
    let mut n: u64 = 1;
    for _ in 0..200 {
        assert_eq!(decimal_string(n), n.to_string());
        n = n.wrapping_mul(6364136223846793005).wrapping_add(1442695040888963407);
    }
}

#[test]
fn decimal_string_is_read_back_by_scan_digits() {
    for n in [0u64, 1, 9, 10, 99, 100, 12345, 1 << 40, MAX_CAP] {
        let v = chars(&decimal_string(n));
        assert_eq!(scan_digits(&v, 0, v.len(), MAX_CAP), Some(n));
    }
}

#[test]
fn hex_digits_are_upper_case() {
    let all: String = (0u8..16).map(hex_digit_str).collect();
    assert_eq!(all, "0123456789ABCDEF");
}

#[test]
fn hex_byte_string_agrees_with_std() {
    for b in 0u8..=255 {
        assert_eq!(hex_byte_string(b), format!("{:02X}", b));
    }
}
