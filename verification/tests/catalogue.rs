use price_notifications::config::Config;
use price_notifications::digits::u64_to_decimal;
use price_notifications::errors::{propagation, CoreError, Propagation};
use price_notifications::price::{get_currency_ids, prices, PriceDetails, Quote, SupportedCurrencies};

fn catalogue() -> Vec<SupportedCurrencies> {
    vec![
        SupportedCurrencies::new("bitcoin".to_string(), "btc".to_string(), "Bitcoin".to_string()),
        SupportedCurrencies::new("ethereum".to_string(), "eth".to_string(), "Ethereum".to_string()),
        SupportedCurrencies::new("dogecoin".to_string(), "doge".to_string(), "Dogecoin".to_string()),
    ]
}

#[test]
fn resolves_by_id_name_and_symbol_case_insensitively() {
    let supported = catalogue();
    assert_eq!(get_currency_ids("bitcoin", &supported).unwrap(), vec!["bitcoin".to_string()]);
    assert_eq!(get_currency_ids("Bitcoin", &supported).unwrap(), vec!["bitcoin".to_string()]);
    assert_eq!(get_currency_ids("BTC", &supported).unwrap(), vec!["bitcoin".to_string()]);
    assert_eq!(get_currency_ids("ETHEREUM", &supported).unwrap(), vec!["ethereum".to_string()]);
    assert_eq!(get_currency_ids("doge", &supported).unwrap(), vec!["dogecoin".to_string()]);
}

#[test]
fn unknown_name_is_unsupported_asset() {
    let supported = catalogue();
    assert_eq!(get_currency_ids("florin", &supported).unwrap_err(), CoreError::UnsupportedAsset);
    assert_eq!(get_currency_ids("", &supported).unwrap_err(), CoreError::UnsupportedAsset);
}

#[test]
fn ambiguous_query_returns_every_match_in_order() {
    let supported = vec![
        SupportedCurrencies::new("bitcoin".to_string(), "btc".to_string(), "Bitcoin".to_string()),
        SupportedCurrencies::new(
            "bitcoin-cash".to_string(),
            "bch".to_string(),
            "btc".to_string(),
        ),
    ];
    assert_eq!(
        get_currency_ids("btc", &supported).unwrap(),
        vec!["bitcoin".to_string(), "bitcoin-cash".to_string()]
    );
}

#[test]
fn prices_pairs_each_quoted_asset_in_request_order() {
    let currencies = vec!["bitcoin".to_string(), "monero".to_string(), "dogecoin".to_string()];
    let quotes = vec![
        Quote { id: "dogecoin".to_string(), usd: 1 },
        Quote { id: "bitcoin".to_string(), usd: 52000 },
    ];
    let samples = prices(&currencies, &quotes);
    assert_eq!(samples.len(), 2);
    assert_eq!(samples[0].currency, "bitcoin");
    assert_eq!(samples[0].price, 52000);
    assert_eq!(samples[1].currency, "dogecoin");
    assert_eq!(samples[1].price, 1);
}

#[test]
fn prices_with_no_quotes_yields_no_samples() {
    let currencies = vec!["bitcoin".to_string()];
    let samples = prices(&currencies, &Vec::new());
    assert!(samples.is_empty());
}

#[test]
fn decimal_rendering_is_exact() {
    assert_eq!(u64_to_decimal(0), "0");
    assert_eq!(u64_to_decimal(7), "7");
    assert_eq!(u64_to_decimal(10), "10");
    assert_eq!(u64_to_decimal(50000), "50000");
    assert_eq!(u64_to_decimal(u64::MAX), "18446744073709551615");
}

#[test]
fn price_line_names_asset_and_price() {
    let sample = PriceDetails { currency: "bitcoin".to_string(), price: 52000 };
    assert_eq!(sample.display_string(), "bitcoin: 52000 USD");
}

#[test]
fn default_config_is_empty_and_priced_in_usd() {
    let config = Config::default();
    assert!(config.currencies.is_empty());
    assert_eq!(config.priced_in, "usd");
    assert_eq!(config.notify_above.len(), 0);
    assert_eq!(config.notify_below.len(), 0);
    assert_eq!(config.my_number, "");
    assert_eq!(config.to_number, "");
    assert_eq!(config.account_id, "");
    assert_eq!(config.auth_token, "");
}

#[test]
fn add_currency_refuses_duplicates() {
    let mut config = Config::default();
    assert!(config.add_currency("bitcoin".to_string()));
    assert!(!config.add_currency("bitcoin".to_string()));
    assert_eq!(config.currencies, vec!["bitcoin".to_string()]);
}

#[test]
fn remove_currency_drops_only_the_named_asset() {
    let mut config = Config::default();
    assert!(config.add_currency("bitcoin".to_string()));
    assert!(config.add_currency("monero".to_string()));
    assert!(config.remove_currency(&"bitcoin".to_string()));
    assert_eq!(config.currencies, vec!["monero".to_string()]);
    assert!(!config.remove_currency(&"bitcoin".to_string()));
}

#[test]
fn consistency_check_spots_an_orphaned_threshold() {
    let mut config = Config::default();
    assert!(config.add_currency("bitcoin".to_string()));
    config.notify_above.insert("bitcoin".to_string(), 50000);
    assert!(config.check_consistency());
    assert!(config.remove_currency(&"bitcoin".to_string()));
    assert!(!config.check_consistency());
}

#[test]
fn propagation_policy_matches_each_error_kind() {
    assert_eq!(propagation(&CoreError::UnsupportedAsset), Propagation::PerItemLogged);
    assert_eq!(propagation(&CoreError::TransportSendFailure), Propagation::PerItemLogged);
    assert_eq!(propagation(&CoreError::PriceSourceUnavailable), Propagation::TickAbort);
    assert_eq!(propagation(&CoreError::ConfigInconsistency), Propagation::Surface);
    assert_eq!(propagation(&CoreError::DaemonStartFailure), Propagation::Fatal);
    assert_eq!(CoreError::PriceSourceUnavailable.message(), "price source unavailable");
}
