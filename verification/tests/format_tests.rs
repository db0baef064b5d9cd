use wrun::format::{decimal_string, fmt_cycles};

#[test]
fn fmt_cycles_zero_and_small() {
    assert_eq!(fmt_cycles(0), "0");
    assert_eq!(fmt_cycles(7), "7");
    assert_eq!(fmt_cycles(538), "538");
    assert_eq!(fmt_cycles(999), "999");
}

#[test]
fn fmt_cycles_groups_of_three() {
    assert_eq!(fmt_cycles(1000), "1_000");
    assert_eq!(fmt_cycles(1234567), "1_234_567");
    assert_eq!(fmt_cycles(140_000), "140_000");
    assert_eq!(fmt_cycles(2_692_307), "2_692_307");
    assert_eq!(fmt_cycles(269_230_769_230), "269_230_769_230");
    assert_eq!(fmt_cycles(1_307_692_307_692), "1_307_692_307_692");
    assert_eq!(fmt_cycles(1_000_000_000), "1_000_000_000");
}

#[test]
fn fmt_cycles_largest_amount() {
    assert_eq!(
        fmt_cycles(u128::MAX),
        "340_282_366_920_938_463_463_374_607_431_768_211_455"
    );
}

#[test]
fn fmt_cycles_strips_to_decimal() {
    for v in [0u128, 9, 10, 99, 100, 12345, 987654321, 10u128.pow(30) + 7] {
        let text = fmt_cycles(v);
        let digits: String = text.chars().filter(|c| *c != '_').collect();
        assert_eq!(digits, v.to_string());
        assert_eq!(digits.parse::<u128>().unwrap(), v);
        let len = text.chars().count();
        for (j, c) in text.chars().enumerate() {
            assert_eq!(c == '_', (len - j) % 4 == 0);
        }
    }
}

#[test]
fn decimal_string_matches_std() {
    for v in [0u128, 1, 42, 1000, u64::MAX as u128, u128::MAX] {
        assert_eq!(decimal_string(v), v.to_string());
    }
}
