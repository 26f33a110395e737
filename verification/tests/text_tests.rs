use webm_jobs::text::{is_white_space, range_is, same_text, split_ranges, to_chars, trim_bounds};

fn chars(s: &str) -> Vec<char> {
    s.chars().collect()
}

fn trimmed(s: &str) -> String {
    let v = chars(s);
    let (from, to) = trim_bounds(&v);
    v[from..to].iter().collect()
}

fn fields(s: &str, sep: char) -> Vec<String> {
    let v = chars(s);
    split_ranges(&v, 0, v.len(), sep).into_iter().map(|(a, b)| v[a..b].iter().collect()).collect()
}

#[test]
fn to_chars_gives_the_characters_in_order() {
    assert_eq!(to_chars(""), Vec::<char>::new());
    assert_eq!(to_chars("a,b"), vec!['a', ',', 'b']);
    assert_eq!(to_chars("häß✓"), vec!['h', 'ä', 'ß', '✓']);
}

#[test]
fn same_text_compares_contents() {
    assert!(same_text("crf", "crf"));
    assert!(same_text("", ""));
    assert!(!same_text("crf", "crf "));
    assert!(!same_text("crf", "CRF"));
}

#[test]
fn white_space_agrees_with_std_on_every_char() {
    for code in 0u32..=0x10FFFF {
        if let Some(c) = char::from_u32(code) {
            assert_eq!(is_white_space(c), c.is_whitespace(), "char U+{:04X}", code);
        }
    }
}

#[test]
fn trim_bounds_agrees_with_std() {
    for text in [
        "",
        " ",
        "\n\t ",
        "true",
        " true",
        "true ",
        "  true \r\n",
        "a b",
        " a b ",
        "\u{3000}x\u{2003}",
        "\u{200B}x\u{200B}",
        "x\u{85}",
        "1920,1080,10.000000\n",
    ] {
        assert_eq!(trimmed(text), text.trim(), "text {:?}", text);
    }
}

#[test]
fn trim_bounds_of_blank_text_is_empty() {
    let v = chars(" \t\n ");
    let (from, to) = trim_bounds(&v);
    assert_eq!(from, to);
}

#[test]
fn split_ranges_agrees_with_std() {
    let texts = [
        "", ",", "a", "a,b", "a,b,c", ",a", "a,", ",,", "1920,1080,10.5", "a,,b,", "no commas",
    ];
    for text in texts {
        let expected: Vec<String> = text.split(',').map(|s| s.to_string()).collect();
        assert_eq!(fields(text, ','), expected, "text {:?}", text);
    }
}

#[test]
fn split_ranges_of_a_part_stays_in_the_part() {
    let v = chars("xx1,2,3yy");
    let ranges = split_ranges(&v, 2, 7, ',');
    assert_eq!(ranges, vec![(2, 3), (4, 5), (6, 7)]);
}

#[test]
fn split_ranges_of_empty_text_is_one_empty_field() {
    let v = chars("");
    assert_eq!(split_ranges(&v, 0, 0, ','), vec![(0, 0)]);
}

#[test]
fn range_is_compares_a_stretch_with_a_word() {
    let v = chars("out_time_us=12");
    assert!(range_is(&v, 0, 11, "out_time_us"));
    assert!(!range_is(&v, 0, 11, "out_time_ms"));
    assert!(!range_is(&v, 0, 10, "out_time_us"));
    assert!(range_is(&v, 12, 14, "12"));
    assert!(range_is(&v, 3, 3, ""));
}
