use himalaya_tui::text::{align_right, date_time, decimal, join_bodies, parse_usize};

#[test]
fn decimal_agrees_with_display() {
    for n in [0usize, 1, 9, 10, 42, 99, 100, 1234567890, usize::MAX] {
        assert_eq!(decimal(n), n.to_string());
    }
}

#[test]
fn parse_agrees_with_from_str() {
    let too_large = format!("{}0", usize::MAX);
    let zeros = format!("000000000000000000000000000000{}", usize::MAX);
    let one_more = "18446744073709551616";
    for s in [
        "", "+", "-", "0", "7", "+7", "++7", "-7", "+-7", " 7", "7 ", "1_0", "12a", "a12", "٣",
        "18446744073709551615", one_more, "99999999999999999999", "+0", "007", &too_large, &zeros,
        "1.0", "0x10",
    ] {
        assert_eq!(parse_usize(s), s.parse::<usize>().ok(), "{:?}", s);
    }
}

#[test]
fn decimal_reads_back() {
    for n in [0usize, 5, 10, 909, usize::MAX - 1, usize::MAX] {
        assert_eq!(parse_usize(&decimal(n)), Some(n));
    }
}

#[test]
fn align_right_agrees_with_format() {
    for s in ["", "x", " v1.2.3 ", "äöü"] {
        for width in [0usize, 1, 3, 8, 20] {
            assert_eq!(align_right(s, width), format!("{: >width$}", s, width = width));
        }
    }
    assert_eq!(align_right(" v1 ", 7), "    v1 ");
}

#[test]
fn bodies_are_joined_by_an_empty_line() {
    assert_eq!(join_bodies(&vec![]), "");
    assert_eq!(join_bodies(&vec!["one".to_string()]), "one");
    assert_eq!(
        join_bodies(&vec!["one".to_string(), "".to_string(), "three".to_string()]),
        "one\n\n\n\nthree"
    );
}

#[test]
fn dates_are_cut_behind_the_minutes() {
    assert_eq!(date_time("2024-05-06T07:08:09+00:00"), "2024-05-06 07:08");
    assert_eq!(date_time("2024-05-06 07:08+00:00"), "2024-05-06 07:08");
    assert_eq!(date_time("2024-05-06T07:08"), "2024-05-06 07:08");
    assert_eq!(date_time("TTTTTTTTTTTTTTTTT"), "                ");
}

#[test]
fn short_dates_stay_as_they_are() {
    assert_eq!(date_time(""), "");
    assert_eq!(date_time("2024-05-06T07:0"), "2024-05-06T07:0");
    assert_eq!(date_time("T"), "T");
}

#[test]
fn dates_are_cut_by_bytes() {
    // Eight characters of two bytes each come before the cut.
    assert_eq!(date_time("ääääääääT"), "ääääääää");
    assert_eq!(date_time("äääääääTTT"), "äääääää  ");
    assert_eq!(date_time("ääääääää"), "ääääääää");
}
