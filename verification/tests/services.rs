//! Subscriptions, their keys, and the service's records.

use perptrix::runtime::config::RuntimeConfig;
use perptrix::runtime::http::{HealthResponse, HealthStatus};
use perptrix::services::hyperliquid::messages::Subscription;
use perptrix::services::hyperliquid::subscriptions::{SubscriptionKey, SubscriptionManager};

#[test]
fn runtime_test_runtime_config_default() {
    let config = RuntimeConfig::default();
    assert_eq!(config.evaluation_interval_seconds, 60);
    assert_eq!(config.symbols.len(), 1);
}

#[test]
fn default_runtime_watches_btc() {
    let config = RuntimeConfig::default();
    assert_eq!(config.symbols, vec!["BTC-PERP"]);
}

#[test]
fn health_starts_healthy_and_is_reported() {
    let health = HealthStatus::default();
    assert_eq!(health.status, "healthy");
    let response = HealthResponse::report(&health, 42);
    assert_eq!(response.status, "healthy");
    assert_eq!(response.uptime_seconds, 42);
    assert_eq!(response.service, "perptrix-signal-engine");
}

#[test]
fn candle_subscription_names_coin_and_interval() {
    match Subscription::candle("BTC", "1m") {
        Subscription::Candle { sub_type, coin, interval } => {
            assert_eq!(sub_type, "candle");
            assert_eq!(coin, "BTC");
            assert_eq!(interval, "1m");
        },
        other => panic!("unexpected: {:?}", other),
    }
}

#[test]
fn all_mids_subscription_keeps_the_exchange() {
    match Subscription::all_mids(Some("dex".to_string())) {
        Subscription::AllMids { sub_type, dex } => {
            assert_eq!(sub_type, "allMids");
            assert_eq!(dex.as_deref(), Some("dex"));
        },
        other => panic!("unexpected: {:?}", other),
    }
    assert!(matches!(Subscription::all_mids(None), Subscription::AllMids { dex: None, .. }));
}

#[test]
fn subscription_keys_identify_subscriptions() {
    let key = SubscriptionKey::candle("ETH", "5m");
    assert_eq!(key.sub_type, "candle");
    assert_eq!(key.coin.as_deref(), Some("ETH"));
    assert_eq!(key.interval.as_deref(), Some("5m"));
    assert_eq!(key, SubscriptionKey::candle("ETH", "5m"));
    assert_ne!(key, SubscriptionKey::candle("ETH", "1m"));
    let mids = SubscriptionKey::all_mids();
    assert_eq!(mids.sub_type, "allMids");
    assert_eq!(mids.coin, None);
    assert_eq!(mids.interval, None);
}

#[test]
fn subscriptions_are_held_once() {
    let mut manager = SubscriptionManager::new();
    assert!(manager.is_empty());
    assert!(!manager.contains(&SubscriptionKey::all_mids()));

    manager.add(SubscriptionKey::candle("BTC", "1m"));
    manager.add(SubscriptionKey::candle("BTC", "5m"));
    manager.add(SubscriptionKey::candle("BTC", "1m"));
    manager.add(SubscriptionKey::all_mids());
    assert!(!manager.is_empty());
    assert!(manager.contains(&SubscriptionKey::candle("BTC", "1m")));
    assert!(manager.contains(&SubscriptionKey::candle("BTC", "5m")));
    assert!(manager.contains(&SubscriptionKey::all_mids()));
    assert!(!manager.contains(&SubscriptionKey::candle("ETH", "1m")));

    // Added twice, removed once: gone.
    manager.remove(&SubscriptionKey::candle("BTC", "1m"));
    assert!(!manager.contains(&SubscriptionKey::candle("BTC", "1m")));
    assert!(manager.contains(&SubscriptionKey::candle("BTC", "5m")));

    // Removing what is not held changes nothing.
    manager.remove(&SubscriptionKey::candle("ETH", "1m"));
    assert!(manager.contains(&SubscriptionKey::candle("BTC", "5m")));
    assert!(manager.contains(&SubscriptionKey::all_mids()));

    manager.remove(&SubscriptionKey::candle("BTC", "5m"));
    manager.remove(&SubscriptionKey::all_mids());
    assert!(manager.is_empty());
}

#[test]
fn keys_are_the_same_when_every_part_is() {
    let key = SubscriptionKey::candle("BTC", "1m");
    assert!(key.same(&SubscriptionKey::candle("BTC", "1m")));
    assert!(!key.same(&SubscriptionKey::candle("BTC", "5m")));
    assert!(!key.same(&SubscriptionKey::candle("ETH", "1m")));
    assert!(!key.same(&SubscriptionKey::all_mids()));
    assert!(SubscriptionKey::all_mids().same(&SubscriptionKey::all_mids()));
    let odd = SubscriptionKey { sub_type: "candle".to_string(), coin: None, interval: None };
    assert!(!odd.same(&SubscriptionKey::all_mids()));
    assert!(!odd.same(&key));
}
