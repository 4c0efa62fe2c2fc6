use price_notifications::config::Config;
use price_notifications::dispatch::Dispatcher;
use price_notifications::errors::CoreError;
use price_notifications::price::PriceDetails;
use price_notifications::scheduler::{Action, Phase, PollScheduler};

fn bitcoin_config(above: u64) -> Config {
    let mut config = Config::default();
    assert!(config.add_currency("bitcoin".to_string()));
    config.notify_above.insert("bitcoin".to_string(), above);
    config
}

#[test]
fn dispatcher_attempts_every_message_despite_failures() {
    let messages =
        vec!["first".to_string(), "second".to_string(), "third".to_string(), "fourth".to_string()];
    let mut dispatcher = Dispatcher::new(messages.clone());
    let planned = [true, false, true, true];
    let mut attempted: Vec<String> = Vec::new();
    let mut step: usize = 0;
    while let Some(message) = dispatcher.next_message() {
        attempted.push(message.clone());
        dispatcher.record_outcome(planned[step]);
        step += 1;
    }
    assert!(dispatcher.is_done());
    assert_eq!(attempted, messages);
    assert_eq!(dispatcher.outcomes(), &vec![true, false, true, true]);
}

#[test]
fn dispatcher_with_no_events_makes_no_attempts() {
    let dispatcher = Dispatcher::new(Vec::new());
    assert!(dispatcher.next_message().is_none());
    assert!(dispatcher.is_done());
    assert!(dispatcher.outcomes().is_empty());
}

#[test]
fn repeated_tick_alerts_again() {
    // No de-duplication: the same crossed threshold alerts on every tick.
    let config = bitcoin_config(50000);
    let samples = vec![PriceDetails { currency: "bitcoin".to_string(), price: 52000 }];
    let mut scheduler = PollScheduler::new(600);
    let expected = vec!["bitcoin target price went above: 50000".to_string()];

    let first = scheduler.on_prices(&samples, &config).unwrap();
    match first {
        Action::Send(msgs) => assert_eq!(msgs, expected),
        _ => panic!("first tick should dispatch"),
    }
    assert!(matches!(scheduler.on_dispatched(), Action::Wait(600)));
    assert!(matches!(scheduler.on_wait_elapsed(), Action::Fetch));

    let second = scheduler.on_prices(&samples, &config).unwrap();
    match second {
        Action::Send(msgs) => assert_eq!(msgs, expected),
        _ => panic!("second tick should dispatch the same alert again"),
    }
}

#[test]
fn failed_fetch_skips_the_tick_and_keeps_the_loop_alive() {
    let mut scheduler = PollScheduler::new(600);
    assert!(matches!(scheduler.phase(), Phase::Fetching));
    let action = scheduler.on_fetch_failed();
    assert!(matches!(action, Action::Wait(600)));
    assert!(matches!(scheduler.phase(), Phase::Waiting));
    assert!(matches!(scheduler.on_wait_elapsed(), Action::Fetch));
    assert!(matches!(scheduler.phase(), Phase::Fetching));
}

#[test]
fn quiet_tick_goes_straight_to_waiting() {
    let config = bitcoin_config(50000);
    let samples = vec![PriceDetails { currency: "bitcoin".to_string(), price: 40000 }];
    let mut scheduler = PollScheduler::new(60);
    let action = scheduler.on_prices(&samples, &config).unwrap();
    assert!(matches!(action, Action::Wait(60)));
    assert!(matches!(scheduler.phase(), Phase::Waiting));
}

#[test]
fn untracked_sample_abandons_the_tick_but_not_the_loop() {
    let config = bitcoin_config(50000);
    let samples = vec![PriceDetails { currency: "ethereum".to_string(), price: 1 }];
    let mut scheduler = PollScheduler::new(600);
    let err = scheduler.on_prices(&samples, &config).unwrap_err();
    assert_eq!(err, CoreError::ConfigInconsistency);
    assert!(matches!(scheduler.phase(), Phase::Waiting));
    assert!(matches!(scheduler.on_wait_elapsed(), Action::Fetch));
}

#[test]
fn crossed_threshold_becomes_exactly_one_send_attempt() {
    let config = bitcoin_config(50000);
    let samples = vec![PriceDetails { currency: "bitcoin".to_string(), price: 52000 }];
    let mut scheduler = PollScheduler::new(600);
    let messages = match scheduler.on_prices(&samples, &config).unwrap() {
        Action::Send(messages) => messages,
        _ => panic!("the crossed threshold must produce a dispatch"),
    };
    let mut dispatcher = Dispatcher::new(messages);
    let mut attempts: Vec<String> = Vec::new();
    while let Some(message) = dispatcher.next_message() {
        attempts.push(message.clone());
        dispatcher.record_outcome(true);
    }
    assert_eq!(attempts.len(), 1);
    assert!(attempts[0].contains("bitcoin"));
    assert!(attempts[0].contains("above"));
    assert!(attempts[0].contains("50000"));
}

#[test]
fn tick_messages_follow_sample_order() {
    let mut config = Config::default();
    assert!(config.add_currency("bitcoin".to_string()));
    assert!(config.add_currency("monero".to_string()));
    config.notify_above.insert("bitcoin".to_string(), 50000);
    config.notify_below.insert("monero".to_string(), 100);
    let samples = vec![
        PriceDetails { currency: "bitcoin".to_string(), price: 52000 },
        PriceDetails { currency: "monero".to_string(), price: 90 },
    ];
    let mut scheduler = PollScheduler::new(600);
    match scheduler.on_prices(&samples, &config).unwrap() {
        Action::Send(msgs) => assert_eq!(
            msgs,
            vec![
                "bitcoin target price went above: 50000".to_string(),
                "monero target price dropped below: 100".to_string(),
            ]
        ),
        _ => panic!("both thresholds are crossed, so the tick must dispatch"),
    }
}
