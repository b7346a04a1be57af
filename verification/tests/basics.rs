use obird::decimal::{Dec, Price, Quantity};
use obird::fair_value::{length_prefix, FairValueModel, FairValuePublisher, PriceAggregator};
use obird::text::{bool_text, i64_to_string, join, parse_u64, u64_to_string};

fn d(m: i64, s: u32) -> Dec {
    Dec::new(m, s)
}

#[test]
fn decimal_arithmetic_and_display() {
    assert_eq!(d(15, 1).add(d(25, 1)), d(4, 0));
    assert_eq!(d(1, 0).sub(d(3, 1)).to_string(), "0.7");
    assert_eq!(d(15, 1).mul(d(2, 0)), d(3, 0));
    assert_eq!(d(1, 0).div(d(4, 0)).to_string(), "0.25");
    assert_eq!(d(1, 0).checked_div(Dec::zero()), None);
    assert_eq!(d(-25, 1).abs(), d(25, 1));
    assert_eq!(d(25, 1).neg(), d(-25, 1));
    assert_eq!(d(27, 1).trunc(), d(2, 0));
    assert_eq!(d(21, 1).ceil(), d(3, 0));
    assert_eq!(d(-21, 1).ceil(), d(-2, 0));
    assert_eq!(d(1234, 3).round_dp_away(2), d(124, 2));
    assert_eq!(d(-1234, 3).round_dp_away(2), d(-124, 2));
    assert_eq!(d(5, 1).to_string(), "0.5");
    assert_eq!(d(500, 3).to_string(), "0.500");
}

#[test]
fn decimal_order_and_equality_by_value() {
    assert_eq!(d(5, 1), d(50, 2));
    assert!(d(4, 1).lt(&d(5, 1)));
    assert!(d(5, 1).le(&d(50, 2)));
    assert!(d(6, 1).gt(&d(5, 1)));
    assert!(d(6, 1).ge(&d(6, 1)));
    assert_eq!(d(4, 1).max(d(5, 1)), d(5, 1));
    assert_eq!(d(4, 1).min(d(5, 1)), d(4, 1));
    assert!(Dec::zero().is_zero());
    assert!(d(-1, 0).is_sign_negative());
    assert_eq!(Dec::from_u64(7).mantissa(), 7);
    assert_eq!(d(123, 2).scale(), 2);
}

#[test]
fn decimal_parse() {
    assert_eq!(Dec::parse_str("0.45"), Some(d(45, 2)));
    assert_eq!(Dec::parse_str("-3"), Some(d(-3, 0)));
    assert_eq!(Dec::parse_str("abc"), None);
    assert!(Dec::parse_result("1.5").is_ok());
    assert!(Dec::parse_result("x").is_err());
}

#[test]
fn price_and_quantity_wrap_a_decimal() {
    assert_eq!(Price::new(d(5, 1)).inner(), d(5, 1));
    assert_eq!(Price::zero().inner(), Dec::zero());
    assert_eq!(Quantity::new(d(-2, 0)).abs().inner(), d(2, 0));
    assert_eq!(Price::new(d(45, 2)).to_string(), "0.45");
    assert_eq!(Quantity::new(d(3, 0)).to_string(), "3");
}

#[test]
fn text_helpers() {
    assert_eq!(parse_u64("42"), Some(42));
    assert_eq!(parse_u64("-1"), None);
    assert_eq!(parse_u64(""), None);
    assert_eq!(u64_to_string(0), "0");
    assert_eq!(u64_to_string(1234567890), "1234567890");
    assert_eq!(i64_to_string(-42), "-42");
    assert_eq!(i64_to_string(i64::MIN), "-9223372036854775808");
    assert_eq!(bool_text(true), "true");
    assert_eq!(bool_text(false), "false");
    assert_eq!(join(&vec!["a".to_string(), "b".to_string(), "c".to_string()], ", "), "a, b, c");
    assert_eq!(join(&vec![], ", "), "");
}

#[test]
fn price_aggregator_keeps_the_latest_price() {
    let mut agg = PriceAggregator::new();
    assert!(agg.get("poly").is_none());
    agg.update("poly".to_string(), Price::new(d(40, 2)));
    agg.update("poly".to_string(), Price::new(d(45, 2)));
    agg.update("binance".to_string(), Price::new(d(1, 0)));
    assert_eq!(agg.get("poly").unwrap().inner(), d(45, 2));
    assert_eq!(agg.get("binance").unwrap().inner(), d(1, 0));
}

#[test]
fn fair_value_model_is_a_half() {
    assert_eq!(FairValueModel::new().fair_value().to_string(), "0.50");
    assert_eq!(FairValuePublisher::new("/tmp/fv.sock".to_string()).socket_path, "/tmp/fv.sock");
}

#[test]
fn length_prefix_is_little_endian() {
    assert_eq!(length_prefix(0), vec![0, 0, 0, 0]);
    assert_eq!(length_prefix(0x0102_0304), vec![4, 3, 2, 1]);
    assert_eq!(length_prefix(300), vec![44, 1, 0, 0]);
}

#[test]
fn decimal_display_pads_signs_and_places_the_point() {
    assert_eq!(d(0, 0).to_string(), "0");
    assert_eq!(d(0, 2).to_string(), "0.00");
    assert_eq!(d(-5, 0).to_string(), "-5");
    assert_eq!(d(-5, 3).to_string(), "-0.005");
    assert_eq!(d(12345, 2).to_string(), "123.45");
    assert_eq!(d(7, 0).to_string(), "7");
}

#[test]
fn unsigned_text_takes_an_optional_plus_then_digits_only() {
    assert_eq!(parse_u64("+5"), Some(5));
    assert_eq!(parse_u64("007"), Some(7));
    assert_eq!(parse_u64("18446744073709551615"), Some(u64::MAX));
    assert_eq!(parse_u64("18446744073709551616"), None);
    assert_eq!(parse_u64(""), None);
    assert_eq!(parse_u64("+"), None);
    assert_eq!(parse_u64("-1"), None);
    assert_eq!(parse_u64(" 1"), None);
    assert_eq!(parse_u64("1_000"), None);
}
