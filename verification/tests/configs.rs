//! Scenario tests for the connection-configuration selector.

use transport_select::{
    ConnectionConfig, OpportunisticEncryption, Protocol, ProtocolPreference, ServerAddr,
    TransportHistory,
};

fn addr() -> ServerAddr {
    ServerAddr { ip: 0x7f000001, port: 853 }
}

fn cfg(protocol: Protocol) -> ConnectionConfig {
    ConnectionConfig { protocol }
}

#[test]
fn no_recent_success_falls_back_to_udp() {
    let prefs = ProtocolPreference::new();
    let history = TransportHistory::new();
    let policy = OpportunisticEncryption::enabled(300);
    let configs = vec![cfg(Protocol::Udp), cfg(Protocol::Tls)];
    let selected = prefs.select_connection_config(addr(), &history, &policy, 400, &configs);
    assert_eq!(selected, Some(configs[0]));
}

#[test]
fn recent_exact_protocol_success_wins() {
    let prefs = ProtocolPreference::new();
    let mut history = TransportHistory::new();
    history.record_success(addr(), Protocol::Tls, 350);
    let policy = OpportunisticEncryption::enabled(300);
    let configs = vec![cfg(Protocol::Udp), cfg(Protocol::Tls)];
    let selected = prefs.select_connection_config(addr(), &history, &policy, 400, &configs);
    assert_eq!(selected, Some(configs[1]));
}

#[test]
fn recent_success_outranks_other_encrypted_configs() {
    let prefs = ProtocolPreference::new();
    let mut history = TransportHistory::new();
    history.record_success(addr(), Protocol::Quic, 350);
    let policy = OpportunisticEncryption::enabled(300);
    let configs = vec![cfg(Protocol::Tls), cfg(Protocol::Https), cfg(Protocol::Quic)];
    let selected = prefs.select_connection_config(addr(), &history, &policy, 400, &configs);
    assert_eq!(selected, Some(configs[2]));
}

#[test]
fn success_for_a_different_protocol_does_not_promote_a_config() {
    let prefs = ProtocolPreference::new();
    let mut history = TransportHistory::new();
    history.record_success(addr(), Protocol::Quic, 350);
    let policy = OpportunisticEncryption::enabled(300);
    let configs = vec![cfg(Protocol::Udp), cfg(Protocol::Tls)];
    let selected = prefs.select_connection_config(addr(), &history, &policy, 400, &configs);
    assert_eq!(selected, Some(configs[0]));
}

#[test]
fn policy_disabled_ignores_recorded_successes() {
    let prefs = ProtocolPreference::new();
    let mut history = TransportHistory::new();
    history.record_success(addr(), Protocol::Tls, 350);
    let policy = OpportunisticEncryption::disabled();
    let configs = vec![cfg(Protocol::Udp), cfg(Protocol::Tls)];
    let selected = prefs.select_connection_config(addr(), &history, &policy, 400, &configs);
    assert_eq!(selected, Some(configs[0]));
}

#[test]
fn excluded_udp_config_is_skipped() {
    let mut prefs = ProtocolPreference::new();
    prefs.exclude_udp();
    let history = TransportHistory::new();
    let policy = OpportunisticEncryption::enabled(300);
    let configs = vec![cfg(Protocol::Udp), cfg(Protocol::Tls)];
    let selected = prefs.select_connection_config(addr(), &history, &policy, 400, &configs);
    assert_eq!(selected, Some(configs[1]));
}

#[test]
fn equally_ranked_configs_keep_input_order() {
    let prefs = ProtocolPreference::new();
    let history = TransportHistory::new();
    let policy = OpportunisticEncryption::enabled(300);
    let configs = vec![cfg(Protocol::Tls), cfg(Protocol::Https)];
    let selected = prefs.select_connection_config(addr(), &history, &policy, 400, &configs);
    assert_eq!(selected, Some(configs[0]));
}

#[test]
fn empty_config_list_yields_none() {
    let prefs = ProtocolPreference::new();
    let history = TransportHistory::new();
    let policy = OpportunisticEncryption::enabled(300);
    let configs: Vec<ConnectionConfig> = Vec::new();
    let selected = prefs.select_connection_config(addr(), &history, &policy, 400, &configs);
    assert_eq!(selected, None);
}

#[test]
fn all_configs_excluded_yields_none() {
    let mut prefs = ProtocolPreference::new();
    prefs.exclude_udp();
    let history = TransportHistory::new();
    let policy = OpportunisticEncryption::disabled();
    let configs = vec![cfg(Protocol::Udp)];
    let selected = prefs.select_connection_config(addr(), &history, &policy, 0, &configs);
    assert_eq!(selected, None);
}

#[test]
fn config_reports_its_protocol() {
    assert_eq!(cfg(Protocol::Https).to_protocol(), Protocol::Https);
}
