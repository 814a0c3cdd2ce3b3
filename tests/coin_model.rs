use crypto_tracker::coin::{convert_to_coins, Coin, CoinGeckoData, MICROS};

fn coin(id: &str, price: u64, change: i64) -> Coin {
    Coin {
        id: id.to_string(),
        name: id.to_string(),
        symbol: id.to_uppercase(),
        current_price: price,
        price_change_24h: change,
    }
}

#[test]
fn price_keeps_cents() {
    assert_eq!(coin("bitcoin", 11_000_320_000, 0).price_formatted(), "$11000.32");
}

#[test]
fn zero_price_has_two_decimals() {
    assert_eq!(coin("bitcoin", 0, 0).price_formatted(), "$0.00");
}

#[test]
fn price_rounds_to_nearest_cent() {
    assert_eq!(coin("x", 1_005_000, 0).price_formatted(), "$1.01");
    assert_eq!(coin("x", 1_004_999, 0).price_formatted(), "$1.00");
    assert_eq!(coin("x", 999_995_000, 0).price_formatted(), "$1000.00");
    assert_eq!(coin("x", 7 * MICROS, 0).price_formatted(), "$7.00");
}

#[test]
fn largest_price_formats() {
    assert_eq!(coin("x", u64::MAX, 0).price_formatted(), "$18446744073709.55");
}

#[test]
fn negative_change_is_signed_percent() {
    assert_eq!(coin("x", 0, -50_000).change_24h_formatted(), "-5.00%");
}

#[test]
fn zero_change_has_plus_sign() {
    assert_eq!(coin("x", 0, 0).change_24h_formatted(), "+0.00%");
}

#[test]
fn change_rounds_to_two_decimals() {
    assert_eq!(coin("x", 0, 333_300).change_24h_formatted(), "+33.33%");
    assert_eq!(coin("x", 0, 27_000).change_24h_formatted(), "+2.70%");
    assert_eq!(coin("x", 0, 333_350).change_24h_formatted(), "+33.34%");
    assert_eq!(coin("x", 0, -333_350).change_24h_formatted(), "-33.34%");
}

#[test]
fn extreme_changes_format() {
    assert_eq!(coin("x", 0, i64::MIN).change_24h_formatted(), "-922337203685477.58%");
    assert_eq!(coin("x", 0, i64::MAX).change_24h_formatted(), "+922337203685477.58%");
}

#[test]
fn up_only_when_change_is_positive() {
    assert!(coin("x", 0, 1).is_up());
    assert!(coin("x", 0, 27_000).is_up());
    assert!(!coin("x", 0, 0).is_up());
    assert!(!coin("x", 0, -50_000).is_up());
}

#[test]
fn one_record_per_quote_with_copied_figures() {
    let quotes = vec![
        ("bitcoin".to_string(), CoinGeckoData { usd: 11_000_320_000, usd_24h_change: -50_000 }),
        ("ethereum".to_string(), CoinGeckoData { usd: 6_000_230_000, usd_24h_change: 0 }),
        ("cardano".to_string(), CoinGeckoData { usd: 672_320_000, usd_24h_change: 270_000 }),
    ];
    let coins = convert_to_coins(quotes);
    assert_eq!(coins.len(), 3);
    assert_eq!(coins[0].id, "bitcoin");
    assert_eq!(coins[0].name, "bitcoin");
    assert_eq!(coins[0].symbol, "BITCOIN");
    assert_eq!(coins[0].current_price, 11_000_320_000);
    assert_eq!(coins[0].price_change_24h, -50_000);
    assert_eq!(coins[1].symbol, "ETHEREUM");
    assert_eq!(coins[1].current_price, 6_000_230_000);
    assert_eq!(coins[1].price_change_24h, 0);
    assert_eq!(coins[2].id, "cardano");
    assert_eq!(coins[2].symbol, "CARDANO");
    assert_eq!(coins[2].price_change_24h, 270_000);
}

#[test]
fn no_quotes_give_no_records() {
    assert!(convert_to_coins(Vec::new()).is_empty());
}
