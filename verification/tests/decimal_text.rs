use bathrooms::decimal::{integer_to_text, natural_to_text, Decimal, PLACES, SCALE};

#[test]
fn scale_is_ten_to_the_places() {
    assert_eq!(SCALE, 10u64.pow(PLACES as u32));
}

#[test]
fn zero_has_no_point() {
    assert_eq!(Decimal::new(0).to_text(), "0");
}

#[test]
fn whole_numbers_have_no_point() {
    assert_eq!(Decimal::new(10_000_000).to_text(), "1");
    assert_eq!(Decimal::new(-20_000_000).to_text(), "-2");
    assert_eq!(Decimal::new(1_800_000_000).to_text(), "180");
}

#[test]
fn trailing_zeros_are_dropped() {
    assert_eq!(Decimal::new(123_400_000).to_text(), "12.34");
    assert_eq!(Decimal::new(567_800_000).to_text(), "56.78");
    assert_eq!(Decimal::new(5_000_000).to_text(), "0.5");
}

#[test]
fn all_seven_places_are_kept() {
    assert_eq!(Decimal::new(123_456_789).to_text(), "12.3456789");
    assert_eq!(Decimal::new(1).to_text(), "0.0000001");
    assert_eq!(Decimal::new(10_000_001).to_text(), "1.0000001");
}

#[test]
fn inner_zeros_are_kept() {
    assert_eq!(Decimal::new(100_500).to_text(), "0.01005");
    assert_eq!(Decimal::new(900_000_100).to_text(), "90.00001");
}

#[test]
fn negative_numbers_carry_a_sign() {
    assert_eq!(Decimal::new(-5_000_000).to_text(), "-0.5");
    assert_eq!(Decimal::new(-1).to_text(), "-0.0000001");
    assert_eq!(Decimal::new(-1_224_194_155).to_text(), "-122.4194155");
}

#[test]
fn the_extremes_are_written_out() {
    assert_eq!(Decimal::new(i64::MAX).to_text(), "922337203685.4775807");
    assert_eq!(Decimal::new(i64::MIN).to_text(), "-922337203685.4775808");
}

#[test]
fn decimal_text_agrees_with_float_formatting() {
    let samples: [(i64, f64); 6] = [
        (123_400_000, 12.34),
        (567_800_000, 56.78),
        (-5_000_000, -0.5),
        (0, 0.0),
        (515_073_510, 51.507351),
        (-1_277_580, -0.127758),
    ];
    for (units, value) in samples {
        assert_eq!(Decimal::new(units).to_text(), format!("{}", value));
    }
}

#[test]
fn natural_text_has_no_leading_zeros() {
    assert_eq!(natural_to_text(0), "0");
    assert_eq!(natural_to_text(7), "7");
    assert_eq!(natural_to_text(10), "10");
    assert_eq!(natural_to_text(2000), "2000");
    assert_eq!(natural_to_text(u64::MAX), "18446744073709551615");
}

#[test]
fn integer_text_matches_std() {
    for n in [0i64, 1, -1, 9, 10, -10, 12345, -987654321, i64::MAX, i64::MIN] {
        assert_eq!(integer_to_text(n), n.to_string());
    }
}

#[test]
fn new_keeps_the_units() {
    assert_eq!(Decimal::new(42).units, 42);
    assert_eq!(Decimal::new(-42), Decimal { units: -42 });
}

#[test]
fn reading_the_text_gives_the_number_back() {
    let mut units: i64 = -2_000_000_000;
    while units <= 2_000_000_000 {
        let text = Decimal::new(units).to_text();
        let read: f64 = text.parse().unwrap();
        assert_eq!((read * SCALE as f64).round() as i64, units, "{text}");
        units += 7_654_321;
    }
}

#[test]
fn different_numbers_have_different_texts() {
    let near = [-11i64, -10, -1, 0, 1, 9, 10, 11, 99, 100, 9_999_999, 10_000_000, 10_000_001];
    for a in near {
        for b in near {
            assert_eq!(Decimal::new(a).to_text() == Decimal::new(b).to_text(), a == b);
        }
    }
}

#[test]
fn reading_an_integer_text_gives_the_integer_back() {
    for n in [i64::MIN, -1_000_000_007, -1, 0, 1, 2000, i64::MAX] {
        assert_eq!(integer_to_text(n).parse::<i64>(), Ok(n));
    }
}
