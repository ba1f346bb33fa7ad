use matrix_system::decimal::Decimal;
use matrix_system::error::ErrorCode;

#[test]
fn decimal_places_the_point() {
    assert_eq!(Decimal::new(12345, 2).to_string(), "123.45");
    assert_eq!(Decimal::new(15_000_000_000, 8).to_string(), "150.00000000");
    assert_eq!(Decimal::new(5, 2).to_string(), "0.05");
    assert_eq!(Decimal::new(42, 2).to_string(), "0.42");
    assert_eq!(Decimal::new(0, 0).to_string(), "0.");
    assert_eq!(Decimal::new(12, 0).to_string(), "12.");
    assert_eq!(Decimal::new(0, 3).to_string(), "0.000");
}

#[test]
fn decimal_sign_counts_as_a_digit() {
    assert_eq!(Decimal::new(-12345, 2).to_string(), "-123.45");
    assert_eq!(Decimal::new(-5, 2).to_string(), "0.-5");
    assert_eq!(Decimal::new(-5, 3).to_string(), "0.0-5");
}

#[test]
fn decimal_extremes() {
    assert_eq!(Decimal::new(i128::MAX, 0).to_string(), format!("{}.", i128::MAX));
    assert_eq!(Decimal::new(i128::MIN, 38).to_string(), "-1.70141183460469231731687303715884105728");
    let d = Decimal::new(7, 1);
    assert_eq!(d.value, 7);
    assert_eq!(d.decimals, 1);
}

#[test]
fn error_numbers_follow_declaration_order() {
    assert_eq!(ErrorCode::ReferrerNotRegistered.number(), 6000);
    assert_eq!(ErrorCode::InsufficientDeposit.number(), 6006);
    assert_eq!(ErrorCode::UnusedDepositDetected.number(), 6028);
    assert_eq!(ErrorCode::InvalidAccountData.number(), 6039);
    assert_eq!(ErrorCode::DuplicateUplineExploit.message(), "Duplicate upline detected - possible exploit attempt");
}

#[test]
fn decimal_text_has_one_point_and_its_decimals() {
    for (value, decimals) in [(12345i128, 2u32), (5, 4), (0, 1), (-98765, 3), (7, 0)] {
        let t = Decimal::new(value, decimals).to_string();
        assert_eq!(t.matches('.').count(), 1);
        let k = t.find('.').unwrap();
        assert_eq!(t.len() - k - 1, decimals as usize);
        let without: String = t.chars().filter(|c| *c != '.').collect();
        assert_eq!(without.parse::<i128>().unwrap(), value);
    }
}
