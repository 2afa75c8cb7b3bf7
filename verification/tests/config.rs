use std::collections::BTreeMap;

use flags_2_env_api_server::config::{ApiConfig, BIND, DEFAULT_BIND, NATS_URL, TCP_BIND};

fn env(entries: &[(&str, &str)]) -> BTreeMap<String, String> {
    entries.iter().map(|(k, v)| (k.to_string(), v.to_string())).collect()
}

#[test]
fn empty_environment_uses_the_default_bind() {
    let config = ApiConfig::from_map(&BTreeMap::new());
    assert_eq!(config.bind, "127.0.0.1:8080");
    assert_eq!(DEFAULT_BIND, "127.0.0.1:8080");
    assert_eq!(config.tcp_bind, None);
    assert_eq!(config.nats_url, None);
}

#[test]
fn every_setting_is_read_from_its_key() {
    let config = ApiConfig::from_map(&env(&[
        (BIND, "0.0.0.0:9000"),
        (TCP_BIND, "0.0.0.0:9001"),
        (NATS_URL, "nats://localhost:4222"),
    ]));
    assert_eq!(config.bind, "0.0.0.0:9000");
    assert_eq!(config.tcp_bind.as_deref(), Some("0.0.0.0:9001"));
    assert_eq!(config.nats_url.as_deref(), Some("nats://localhost:4222"));
}

#[test]
fn unrelated_keys_are_ignored() {
    let config = ApiConfig::from_map(&env(&[("OTHER", "x"), ("api_bind", "1.2.3.4:5")]));
    assert_eq!(config.bind, "127.0.0.1:8080");
    assert_eq!(config.tcp_bind, None);
    assert_eq!(config.nats_url, None);
}

#[test]
fn optional_settings_are_independent() {
    let config = ApiConfig::from_map(&env(&[(NATS_URL, "nats://n")]));
    assert_eq!(config.bind, "127.0.0.1:8080");
    assert_eq!(config.tcp_bind, None);
    assert_eq!(config.nats_url.as_deref(), Some("nats://n"));
}
