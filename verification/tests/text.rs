use termclock::text::{format_countdown, push_decimal, push_hms, push_two_digits};

#[test]
fn countdown_is_zero_padded() {
    assert_eq!(format_countdown(0), "00:00:00");
    assert_eq!(format_countdown(1), "00:00:01");
    assert_eq!(format_countdown(59), "00:00:59");
    assert_eq!(format_countdown(60), "00:01:00");
    assert_eq!(format_countdown(3599), "00:59:59");
    assert_eq!(format_countdown(3600), "01:00:00");
    assert_eq!(format_countdown(10800), "03:00:00");
    assert_eq!(format_countdown(11535), "03:12:15");
    assert_eq!(format_countdown(86399), "23:59:59");
}

#[test]
fn countdown_hours_are_not_wrapped() {
    assert_eq!(format_countdown(86400), "24:00:00");
    assert_eq!(format_countdown(359999), "99:59:59");
    assert_eq!(format_countdown(360000), "100:00:00");
    assert_eq!(format_countdown(i64::MAX), "2562047788015215:30:07");
}

#[test]
fn countdown_below_zero_has_a_minus_sign() {
    assert_eq!(format_countdown(-1), "-00:00:01");
    assert_eq!(format_countdown(-60), "-00:01:00");
    assert_eq!(format_countdown(-3661), "-01:01:01");
    assert_eq!(format_countdown(-360000), "-100:00:00");
    assert_eq!(format_countdown(i64::MIN), "-2562047788015215:30:08");
}

#[test]
fn countdown_below_zero_is_the_magnitude_behind_a_minus() {
    let mut r: i64 = 1;
    while r < 200000 {
        assert_eq!(format_countdown(-r), format!("-{}", format_countdown(r)));
        r += 997;
    }
}

#[test]
fn countdown_agrees_with_padded_fields() {
    let mut r: i64 = 0;
    while r < 400000 {
        let expected = format!("{:02}:{:02}:{:02}", r / 3600, (r % 3600) / 60, r % 60);
        assert_eq!(format_countdown(r), expected);
        r += 61;
    }
}

#[test]
fn decimal_is_appended() {
    let mut s = String::from("n=");
    push_decimal(&mut s, 0);
    assert_eq!(s, "n=0");
    push_decimal(&mut s, 907);
    assert_eq!(s, "n=0907");
    let mut t = String::new();
    push_decimal(&mut t, u128::MAX);
    assert_eq!(t, "340282366920938463463374607431768211455");
}

#[test]
fn two_digits_pad_with_a_zero() {
    let mut s = String::new();
    push_two_digits(&mut s, 0);
    push_two_digits(&mut s, 7);
    push_two_digits(&mut s, 10);
    push_two_digits(&mut s, 99);
    push_two_digits(&mut s, 100);
    assert_eq!(s, "00071099100");
}

#[test]
fn hms_is_appended() {
    let mut s = String::from("T-");
    push_hms(&mut s, 3723);
    assert_eq!(s, "T-01:02:03");
}
