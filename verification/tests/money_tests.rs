use storage_manager::money::{
    amount_error_message, format_money, format_money_input, parse_amount, parse_positive_amount,
    AmountError,
};
use storage_manager::pages::payments;
use storage_manager::pages::rentals;
use storage_manager::pages::units;

#[test]
fn format_money_writes_dollars_and_cents() {
    assert_eq!(format_money(1250), "$12.50");
    assert_eq!(format_money(5), "$0.05");
    assert_eq!(format_money(0), "$0.00");
    assert_eq!(format_money(-150), "$-1.50");
    assert_eq!(format_money(-50), "$0.50");
    assert_eq!(format_money(i64::MAX), "$92233720368547758.07");
    assert_eq!(format_money_input(120000), "1200.00");
    assert_eq!(format_money_input(7), "0.07");
}

#[test]
fn parse_amount_reads_dollars() {
    assert_eq!(parse_amount(" $1,234.5 "), Ok(123450));
    assert_eq!(parse_amount("7"), Ok(700));
    assert_eq!(parse_amount(".05"), Ok(5));
    assert_eq!(parse_amount("5."), Ok(500));
    assert_eq!(parse_amount("."), Ok(0));
    assert_eq!(parse_amount("$$12"), Ok(1200));
    assert_eq!(parse_amount("+3.25"), Ok(325));
    assert_eq!(parse_amount("007.1"), Ok(710));
    assert_eq!(parse_amount("\u{3000}42\u{2003}"), Ok(4200));
}

#[test]
fn parse_amount_follows_the_sign_of_the_cents_part() {
    // The cents part is read as a signed whole number, as i64 parsing reads it.
    assert_eq!(parse_amount("5.+1"), Ok(501));
    assert_eq!(parse_amount("5.-1"), Ok(499));
    assert_eq!(parse_amount("0.-5"), Ok(-5));
}

#[test]
fn parse_amount_refusals() {
    assert_eq!(parse_amount(""), Err(AmountError::Required));
    assert_eq!(parse_amount("  $ "), Err(AmountError::Required));
    assert_eq!(parse_amount(",,"), Err(AmountError::Required));
    assert_eq!(parse_amount("-3"), Err(AmountError::Negative));
    assert_eq!(parse_amount("$-3"), Err(AmountError::Negative));
    assert_eq!(parse_amount("1.2.3"), Err(AmountError::Invalid));
    assert_eq!(parse_amount("12a"), Err(AmountError::Invalid));
    assert_eq!(parse_amount("$ 5"), Err(AmountError::Invalid));
    assert_eq!(parse_amount("5.+"), Err(AmountError::Invalid));
    assert_eq!(parse_amount("5.é"), Err(AmountError::Invalid));
    assert_eq!(parse_amount("99999999999999999999"), Err(AmountError::Invalid));
    assert_eq!(parse_amount("1.234"), Err(AmountError::TooManyDecimals));
    assert_eq!(parse_amount("5.é1"), Err(AmountError::TooManyDecimals));
    assert_eq!(parse_amount("92233720368547758.08"), Err(AmountError::TooLarge));
    assert_eq!(parse_amount("92233720368547758.07"), Ok(i64::MAX));
    assert_eq!(parse_amount("92233720368547759"), Err(AmountError::TooLarge));
}

#[test]
fn positive_amounts_refuse_zero() {
    assert_eq!(parse_positive_amount("0"), Err(AmountError::NotPositive));
    assert_eq!(parse_positive_amount("0.-5"), Err(AmountError::NotPositive));
    assert_eq!(parse_positive_amount("0.01"), Ok(1));
    assert_eq!(parse_positive_amount(""), Err(AmountError::Required));
}

#[test]
fn amount_messages_name_the_field() {
    assert_eq!(
        amount_error_message("Monthly rent", AmountError::Required),
        "Monthly rent is required."
    );
    assert_eq!(
        amount_error_message("Monthly rent", AmountError::Negative),
        "Monthly rent cannot be negative."
    );
    assert_eq!(
        amount_error_message("Payment amount", AmountError::Invalid),
        "Payment amount is not valid."
    );
    assert_eq!(
        amount_error_message("Payment amount", AmountError::TooManyDecimals),
        "Payment amount can have no more than two decimal places."
    );
    assert_eq!(
        amount_error_message("Monthly rent", AmountError::TooLarge),
        "Monthly rent is too large."
    );
    assert_eq!(
        amount_error_message("Payment amount", AmountError::NotPositive),
        "Payment amount must be greater than zero."
    );
}

#[test]
fn page_amount_fields() {
    assert_eq!(units::parse_dollars_to_cents("85"), Ok(8500));
    assert_eq!(units::parse_dollars_to_cents("0"), Ok(0));
    assert_eq!(
        units::parse_dollars_to_cents(""),
        Err("Monthly rent is required.".to_string())
    );
    assert_eq!(rentals::parse_dollars_to_cents("$1,200.00"), Ok(120000));
    assert_eq!(
        rentals::parse_dollars_to_cents("-1"),
        Err("Monthly rent cannot be negative.".to_string())
    );
    assert_eq!(payments::parse_dollars_to_cents("$75.5"), Ok(7550));
    assert_eq!(
        payments::parse_dollars_to_cents("0.00"),
        Err("Payment amount must be greater than zero.".to_string())
    );
    assert_eq!(
        payments::parse_dollars_to_cents("1.999"),
        Err("Payment amount can have no more than two decimal places.".to_string())
    );
}

#[test]
fn input_text_reads_back_as_the_same_cents() {
    for cents in [0_i64, 1, 9, 10, 99, 100, 12345, 120000, i64::MAX] {
        assert_eq!(parse_amount(&format_money_input(cents)), Ok(cents));
        assert_eq!(parse_amount(&format_money(cents)), Ok(cents));
    }
    for cents in [1_i64, 250, 99999] {
        assert_eq!(parse_positive_amount(&format_money_input(cents)), Ok(cents));
    }
}
