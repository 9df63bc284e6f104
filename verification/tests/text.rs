use song_catalog::text::{parse_count, render_int};

#[test]
fn renders_small_numbers() {
    assert_eq!(render_int(0), "0");
    assert_eq!(render_int(7), "7");
    assert_eq!(render_int(10), "10");
    assert_eq!(render_int(12345), "12345");
    assert_eq!(render_int(-1), "-1");
    assert_eq!(render_int(-120), "-120");
}

#[test]
fn renders_the_ends_of_the_range() {
    assert_eq!(render_int(i64::MAX), "9223372036854775807");
    assert_eq!(render_int(i64::MIN), "-9223372036854775808");
}

#[test]
fn rendering_agrees_with_the_standard_library() {
    let samples = [0i64, 1, 9, 10, 11, 99, 100, 101, 1000, -1, -9, -10, -99, -100, 4_294_967_296, -4_294_967_297];
    for n in samples {
        assert_eq!(render_int(n), n.to_string());
    }
}

#[test]
fn reads_plain_counts() {
    assert_eq!(parse_count("0"), Some(0));
    assert_eq!(parse_count("1"), Some(1));
    assert_eq!(parse_count("10"), Some(10));
    assert_eq!(parse_count("007"), Some(7));
    assert_eq!(parse_count("+5"), Some(5));
}

#[test]
fn refuses_what_is_no_count() {
    assert_eq!(parse_count(""), None);
    assert_eq!(parse_count("+"), None);
    assert_eq!(parse_count("-1"), None);
    assert_eq!(parse_count("1a"), None);
    assert_eq!(parse_count(" 1"), None);
    assert_eq!(parse_count("1 "), None);
    assert_eq!(parse_count("++1"), None);
    assert_eq!(parse_count("1.5"), None);
    assert_eq!(parse_count("ten"), None);
    assert_eq!(parse_count("\u{661}\u{662}"), None);
}

#[test]
fn reads_up_to_the_machine_word() {
    let top = usize::MAX.to_string();
    assert_eq!(parse_count(&top), Some(usize::MAX));
    let beyond = format!("{}0", top);
    assert_eq!(parse_count(&beyond), None);
    assert_eq!(parse_count("99999999999999999999999999999999999999999"), None);
}

#[test]
fn reading_agrees_with_the_standard_library() {
    let samples = ["", "+", "-", "0", "+0", "-0", "12", "+12", "0012", "1_000", "12a", "a12", "18446744073709551615", "18446744073709551616", "٣"];
    for s in samples {
        assert_eq!(parse_count(s), s.parse::<usize>().ok(), "on {:?}", s);
    }
}

#[test]
fn rendering_then_reading_gives_the_number_back() {
    for n in [0usize, 1, 10, 255, 65_536, 1_000_000_007] {
        assert_eq!(parse_count(&render_int(n as i64)), Some(n));
    }
}
