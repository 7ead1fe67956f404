use mixed_radix_clock::digits::{pad_with_zeros, render_digits};
use mixed_radix_clock::ConfigError;

#[test]
fn zero_is_a_single_digit() {
    for radix in 2u8..=36 {
        assert_eq!(render_digits(0, radix, 0).unwrap(), "0");
        assert_eq!(render_digits(0, radix, 1).unwrap(), "0");
        assert_eq!(render_digits(0, radix, 4).unwrap(), "0000");
    }
}

#[test]
fn digits_are_lowercase_alphanumerics() {
    assert_eq!(render_digits(9, 10, 0).unwrap(), "9");
    assert_eq!(render_digits(10, 11, 0).unwrap(), "a");
    assert_eq!(render_digits(35, 36, 0).unwrap(), "z");
    assert_eq!(render_digits(36, 36, 0).unwrap(), "10");
    assert_eq!(render_digits(255, 16, 0).unwrap(), "ff");
    assert_eq!(render_digits(0xdead_beef, 16, 0).unwrap(), "deadbeef");
    assert_eq!(
        render_digits(36u128.pow(5) - 1, 36, 0).unwrap(),
        "zzzzz"
    );
}

#[test]
fn values_in_some_radices() {
    assert_eq!(render_digits(15, 3, 0).unwrap(), "120");
    assert_eq!(render_digits(39, 8, 3).unwrap(), "047");
    assert_eq!(render_digits(5, 2, 0).unwrap(), "101");
    assert_eq!(render_digits(19, 6, 2).unwrap(), "31");
    assert_eq!(render_digits(54, 6, 2).unwrap(), "130");
    assert_eq!(render_digits(424_333, 6, 7).unwrap(), "13032301");
    assert_eq!(render_digits(1_000_000, 10, 0).unwrap(), "1000000");
    assert_eq!(render_digits(123_456_789, 36, 0).unwrap(), "21i3v9");
}

#[test]
fn the_width_is_a_floor() {
    assert_eq!(render_digits(92, 10, 0).unwrap(), "92");
    assert_eq!(render_digits(92, 10, 1).unwrap(), "92");
    assert_eq!(render_digits(92, 10, 2).unwrap(), "92");
    assert_eq!(render_digits(92, 10, 3).unwrap(), "092");
    assert_eq!(render_digits(92, 10, 8).unwrap(), "00000092");
}

#[test]
fn the_largest_value_is_written_in_full() {
    assert_eq!(render_digits(u128::MAX, 2, 0).unwrap(), "1".repeat(128));
    assert_eq!(render_digits(u128::MAX, 16, 0).unwrap(), "f".repeat(32));
    assert_eq!(
        render_digits(u128::MAX, 10, 0).unwrap(),
        "340282366920938463463374607431768211455"
    );
    assert_eq!(
        render_digits(u128::MAX, 36, 0).unwrap(),
        "f5lxx1zz5pnorynqglhzmsp33"
    );
    assert_eq!(render_digits(u128::MAX, 3, 0).unwrap().len(), 81);
    assert_eq!(render_digits(u128::MAX, 2, 130).unwrap(), format!("00{}", "1".repeat(128)));
}

#[test]
fn a_radix_out_of_range_is_refused() {
    assert_eq!(render_digits(5, 0, 0), Err(ConfigError::RadixOutOfRange));
    assert_eq!(render_digits(5, 1, 0), Err(ConfigError::RadixOutOfRange));
    assert_eq!(render_digits(5, 37, 0), Err(ConfigError::RadixOutOfRange));
    assert_eq!(render_digits(5, u8::MAX, 3), Err(ConfigError::RadixOutOfRange));
    assert!(render_digits(5, 2, 0).is_ok());
    assert!(render_digits(5, 36, 0).is_ok());
}

#[test]
fn rendered_digits_read_back_as_the_value() {
    let values = [
        0u128,
        1,
        5,
        6,
        35,
        36,
        59,
        999,
        1_000,
        7_775,
        7_776,
        279_935,
        279_936,
        u64::MAX as u128,
        u128::MAX,
    ];
    for radix in 2u8..=36 {
        for value in values {
            for width in [0usize, 1, 2, 7, 40] {
                let text = render_digits(value, radix, width).unwrap();
                assert_eq!(u128::from_str_radix(&text, radix as u32), Ok(value));
                assert!(text.len() >= width);
                assert!(text
                    .chars()
                    .all(|c| c.is_ascii_digit() || c.is_ascii_lowercase()));
                assert!(text.chars().all(|c| c.to_digit(radix as u32).is_some()));
            }
        }
    }
}

#[test]
fn every_digit_of_every_modulus_reads_back() {
    for radix in 2u8..=36 {
        for value in 0u128..1300 {
            let text = render_digits(value, radix, 2).unwrap();
            assert_eq!(u128::from_str_radix(&text, radix as u32), Ok(value));
        }
    }
}

#[test]
fn the_length_is_the_wider_of_width_and_digits() {
    fn digit_count(mut value: u128, radix: u128) -> usize {
        let mut count = 1;
        while value >= radix {
            value /= radix;
            count += 1;
        }
        count
    }
    for radix in [2u8, 6, 10, 16, 36] {
        for value in [0u128, 1, 35, 36, 1_295, 1_296, 86_399_999, u128::MAX] {
            for width in [0usize, 1, 3, 7, 200] {
                let text = render_digits(value, radix, width).unwrap();
                assert_eq!(text.len(), width.max(digit_count(value, radix as u128)));
            }
        }
    }
}

#[test]
fn padding_puts_zeros_in_front() {
    assert_eq!(pad_with_zeros(String::from("7"), 0), "7");
    assert_eq!(pad_with_zeros(String::from("7"), 1), "7");
    assert_eq!(pad_with_zeros(String::from("7"), 3), "007");
    assert_eq!(pad_with_zeros(String::new(), 2), "00");
    assert_eq!(pad_with_zeros(String::new(), 0), "");
    assert_eq!(pad_with_zeros(String::from("abcdef"), 3), "abcdef");
    // the width counts characters, not bytes
    assert_eq!(pad_with_zeros(String::from("äö"), 3), "0äö");
}
