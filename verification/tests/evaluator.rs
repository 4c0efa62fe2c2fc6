use price_notifications::config::Config;
use price_notifications::errors::CoreError;
use price_notifications::notify::{evaluate, render_alert, Direction, Notification};
use price_notifications::price::PriceDetails;

fn config_with(currency: &str, above: Option<u64>, below: Option<u64>) -> Config {
    let mut config = Config::default();
    assert!(config.add_currency(currency.to_string()));
    if let Some(u) = above {
        config.notify_above.insert(currency.to_string(), u);
    }
    if let Some(l) = below {
        config.notify_below.insert(currency.to_string(), l);
    }
    config
}

#[test]
fn above_event_when_price_exceeds_upper() {
    let config = config_with("bitcoin", Some(50000), None);
    let sample = PriceDetails { currency: "bitcoin".to_string(), price: 52000 };
    let events = evaluate(&sample, &config).unwrap();
    assert_eq!(events.len(), 1);
    assert_eq!(events[0].asset_id, "bitcoin");
    assert!(matches!(events[0].direction, Direction::Above));
    assert_eq!(events[0].threshold_value, 50000);
    assert_eq!(events[0].observed_price, 52000);
    let msgs = sample.get_notifications(&config).unwrap();
    assert_eq!(msgs, vec!["bitcoin target price went above: 50000".to_string()]);
}

#[test]
fn upper_boundary_is_exclusive() {
    let config = config_with("bitcoin", Some(50000), None);
    let sample = PriceDetails { currency: "bitcoin".to_string(), price: 50000 };
    let events = evaluate(&sample, &config).unwrap();
    assert!(events.is_empty());
}

#[test]
fn below_event_when_price_drops_under_lower() {
    let config = config_with("bitcoin", None, Some(10000));
    let sample = PriceDetails { currency: "bitcoin".to_string(), price: 9000 };
    let events = evaluate(&sample, &config).unwrap();
    assert_eq!(events.len(), 1);
    assert!(matches!(events[0].direction, Direction::Below));
    assert_eq!(events[0].threshold_value, 10000);
    let msgs = sample.get_notifications(&config).unwrap();
    assert_eq!(msgs, vec!["bitcoin target price dropped below: 10000".to_string()]);
}

#[test]
fn lower_boundary_is_exclusive() {
    let config = config_with("bitcoin", None, Some(10000));
    let sample = PriceDetails { currency: "bitcoin".to_string(), price: 10000 };
    let events = evaluate(&sample, &config).unwrap();
    assert!(events.is_empty());
}

#[test]
fn no_thresholds_means_no_events() {
    let mut config = Config::default();
    assert!(config.add_currency("dogecoin".to_string()));
    for price in [0u64, 1, 123456, u64::MAX] {
        let sample = PriceDetails { currency: "dogecoin".to_string(), price };
        let events = evaluate(&sample, &config).unwrap();
        assert!(events.is_empty());
        let msgs = sample.get_notifications(&config).unwrap();
        assert!(msgs.is_empty());
    }
}

#[test]
fn sane_bounds_never_fire_together() {
    let config = config_with("bitcoin", Some(50000), Some(10000));
    for price in [0u64, 9999, 10000, 30000, 50000, 50001, u64::MAX] {
        let sample = PriceDetails { currency: "bitcoin".to_string(), price };
        let events = evaluate(&sample, &config).unwrap();
        assert!(events.len() <= 1);
    }
}

#[test]
fn inverted_bounds_can_fire_both_without_crashing() {
    // upper < lower is a misconfiguration; both events fire, below first.
    let config = config_with("bitcoin", Some(10000), Some(50000));
    let sample = PriceDetails { currency: "bitcoin".to_string(), price: 30000 };
    let events = evaluate(&sample, &config).unwrap();
    assert_eq!(events.len(), 2);
    assert!(matches!(events[0].direction, Direction::Below));
    assert!(matches!(events[1].direction, Direction::Above));
    let msgs = sample.get_notifications(&config).unwrap();
    assert_eq!(
        msgs,
        vec![
            "bitcoin target price dropped below: 50000".to_string(),
            "bitcoin target price went above: 10000".to_string(),
        ]
    );
}

#[test]
fn untracked_asset_is_a_consistency_error() {
    let config = config_with("bitcoin", Some(50000), None);
    let sample = PriceDetails { currency: "ethereum".to_string(), price: 1 };
    assert_eq!(evaluate(&sample, &config).unwrap_err(), CoreError::ConfigInconsistency);
    assert_eq!(sample.get_notifications(&config).unwrap_err(), CoreError::ConfigInconsistency);
}

#[test]
fn add_notifications_registers_both_bounds() {
    let mut config = Config::default();
    assert!(config.add_currency("bitcoin".to_string()));
    let sample = PriceDetails { currency: "bitcoin".to_string(), price: 0 };
    sample.add_notifications(&mut config, Some(50000), Some(10000)).unwrap();
    assert_eq!(config.notify_above.get(&"bitcoin".to_string()), Some(50000));
    assert_eq!(config.notify_below.get(&"bitcoin".to_string()), Some(10000));
}

#[test]
fn add_notifications_refuses_untracked_asset() {
    let mut config = Config::default();
    let sample = PriceDetails { currency: "bitcoin".to_string(), price: 0 };
    let err = sample.add_notifications(&mut config, Some(50000), None).unwrap_err();
    assert_eq!(err, CoreError::ConfigInconsistency);
    assert_eq!(config.notify_above.get(&"bitcoin".to_string()), None);
}

#[test]
fn add_notifications_replaces_earlier_threshold() {
    let mut config = Config::default();
    assert!(config.add_currency("bitcoin".to_string()));
    let sample = PriceDetails { currency: "bitcoin".to_string(), price: 0 };
    sample.add_notifications(&mut config, Some(40000), None).unwrap();
    sample.add_notifications(&mut config, Some(45000), None).unwrap();
    assert_eq!(config.notify_above.get(&"bitcoin".to_string()), Some(45000));
    assert_eq!(config.notify_above.len(), 1);
}

#[test]
fn render_names_asset_direction_and_threshold() {
    let config = config_with("monero", Some(150), None);
    let sample = PriceDetails { currency: "monero".to_string(), price: 151 };
    let events = evaluate(&sample, &config).unwrap();
    let text = render_alert(&events[0]);
    assert!(text.contains("monero"));
    assert!(text.contains("above"));
    assert!(text.contains("150"));
}
