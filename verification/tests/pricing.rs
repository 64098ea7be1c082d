use seilor_token::fees::split;
use seilor_token::pricing::{get_price, price_computable};
use seilor_token::state::Config;

fn config(initial: u128, mult: u128, fee: u64) -> Config {
    Config {
        admin: "admin".to_string(),
        platform_fee_percent: fee,
        initial_price: initial,
        price_increment_multiplier: mult,
    }
}

#[test]
fn price_zero_supply_is_initial() {
    assert_eq!(get_price(0, &config(100, 1000, 5)), 100);
    assert_eq!(get_price(0, &config(100, 0, 5)), 100);
    assert_eq!(get_price(0, &config(7, u128::MAX, 5)), 7);
}

#[test]
fn price_supply_one() {
    // 1 * 1 * 1000 / (1 * 1000) = 1
    assert_eq!(get_price(1, &config(100, 1000, 5)), 101);
}

#[test]
fn price_uses_truncated_sqrt() {
    // 16 * 2000 / (2 * 1000) = 16; a non-truncated root would give 8
    assert_eq!(get_price(4, &config(100, 2000, 5)), 116);
    // 25 * 777 / (2 * 1000) = 19425 / 2000 = 9 (floor)
    assert_eq!(get_price(5, &config(50, 777, 5)), 59);
}

#[test]
fn price_at_sqrt_boundary() {
    // 9 * 1000 / (1 * 1000) = 9
    assert_eq!(get_price(3, &config(100, 1000, 5)), 109);
    // 16 * 1000 / (2 * 1000) = 8: the truncated denominator jumps at 4
    assert_eq!(get_price(4, &config(100, 1000, 5)), 108);
}

#[test]
fn price_zero_multiplier_stays_initial() {
    let cfg = config(42, 0, 5);
    for supply in [1u128, 2, 10, 1 << 40] {
        assert_eq!(get_price(supply, &cfg), 42);
    }
}

#[test]
fn price_computable_detects_overflow() {
    assert!(price_computable(10, &config(100, 1000, 5)));
    assert!(price_computable(0, &config(u128::MAX, u128::MAX, 5)));
    // supply * supply overflows
    assert!(!price_computable(u128::MAX, &config(0, 1, 5)));
    // supply^2 * multiplier overflows
    assert!(!price_computable(5, &config(0, u128::MAX, 5)));
    // initial + increment overflows
    assert!(!price_computable(1, &config(u128::MAX, u128::MAX / 500, 5)));
}

#[test]
fn split_exact_shares() {
    assert_eq!(split(100, 5, 10), (5, 10, 85));
    // floors: 99*5/100 = 4, 99*10/100 = 9
    assert_eq!(split(99, 5, 10), (4, 9, 86));
    assert_eq!(split(0, 100, 0), (0, 0, 0));
    // fee + royalty at the 100 boundary
    assert_eq!(split(7, 80, 20), (5, 1, 1));
}

#[test]
fn split_conserves_value() {
    for price in [1u128, 10, 99, 100, 101, 12345, u128::MAX / 100] {
        let (platform, creator, remainder) = split(price, 7, 13);
        assert_eq!(platform + creator + remainder, price);
    }
}
