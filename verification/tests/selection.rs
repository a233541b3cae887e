//! Scenario tests for the live-connection selector.

use transport_select::{
    ConnectionState, OpportunisticEncryption, Protocol, ProtocolPreference, ServerAddr,
    TransportHistory,
};

fn addr() -> ServerAddr {
    ServerAddr { ip: 0x7f000001, port: 53 }
}

fn conn(protocol: Protocol, srtt: Option<u64>) -> ConnectionState {
    ConnectionState { protocol, srtt }
}

#[test]
fn default_preferences_pick_udp_on_latency() {
    let prefs = ProtocolPreference::new();
    let history = TransportHistory::new();
    let policy = OpportunisticEncryption::disabled();
    let conns = vec![conn(Protocol::Udp, Some(10_000)), conn(Protocol::Tcp, Some(50_000))];
    let selected = prefs.select_connection(addr(), &history, &policy, 0, &conns);
    assert_eq!(selected, Some(conns[0]));
}

#[test]
fn excluding_udp_picks_tcp() {
    let mut prefs = ProtocolPreference::new();
    prefs.exclude_udp();
    let history = TransportHistory::new();
    let policy = OpportunisticEncryption::disabled();
    let conns = vec![conn(Protocol::Udp, Some(10_000)), conn(Protocol::Tcp, Some(50_000))];
    let selected = prefs.select_connection(addr(), &history, &policy, 0, &conns);
    assert_eq!(selected, Some(conns[1]));
}

#[test]
fn udp_wins_even_with_worse_latency_when_policy_disabled() {
    let prefs = ProtocolPreference::new();
    let history = TransportHistory::new();
    let policy = OpportunisticEncryption::disabled();
    let conns = vec![conn(Protocol::Tcp, Some(1)), conn(Protocol::Udp, Some(999_999))];
    let selected = prefs.select_connection(addr(), &history, &policy, 0, &conns);
    assert_eq!(selected, Some(conns[1]));
}

#[test]
fn recent_encrypted_success_vetoes_unencrypted_winner() {
    let prefs = ProtocolPreference::new();
    let mut history = TransportHistory::new();
    history.record_success(addr(), Protocol::Tls, 100);
    let policy = OpportunisticEncryption::enabled(300);
    let conns = vec![conn(Protocol::Tcp, Some(5_000))];
    let selected = prefs.select_connection(addr(), &history, &policy, 200, &conns);
    assert_eq!(selected, None);
}

#[test]
fn encrypted_candidate_beats_faster_unencrypted_when_policy_enabled() {
    let prefs = ProtocolPreference::new();
    let history = TransportHistory::new();
    let policy = OpportunisticEncryption::enabled(300);
    let conns = vec![conn(Protocol::Tcp, Some(5_000)), conn(Protocol::Tls, Some(40_000))];
    let selected = prefs.select_connection(addr(), &history, &policy, 200, &conns);
    assert_eq!(selected, Some(conns[1]));
}

#[test]
fn encrypted_winner_is_never_vetoed() {
    let prefs = ProtocolPreference::new();
    let mut history = TransportHistory::new();
    history.record_success(addr(), Protocol::Tls, 100);
    let policy = OpportunisticEncryption::enabled(300);
    let conns = vec![conn(Protocol::Tcp, Some(5_000)), conn(Protocol::Tls, Some(40_000))];
    let selected = prefs.select_connection(addr(), &history, &policy, 200, &conns);
    assert_eq!(selected, Some(conns[1]));
}

#[test]
fn veto_needs_a_success_towards_the_same_address() {
    let prefs = ProtocolPreference::new();
    let mut history = TransportHistory::new();
    let other = ServerAddr { ip: 0x7f000002, port: 53 };
    history.record_success(other, Protocol::Tls, 100);
    let policy = OpportunisticEncryption::enabled(300);
    let conns = vec![conn(Protocol::Tcp, Some(5_000))];
    let selected = prefs.select_connection(addr(), &history, &policy, 200, &conns);
    assert_eq!(selected, Some(conns[0]));
}

#[test]
fn equal_protocols_tie_break_on_srtt() {
    let prefs = ProtocolPreference::new();
    let history = TransportHistory::new();
    let policy = OpportunisticEncryption::disabled();
    let conns = vec![
        conn(Protocol::Tcp, Some(30_000)),
        conn(Protocol::Tcp, Some(10_000)),
        conn(Protocol::Tcp, Some(20_000)),
    ];
    let selected = prefs.select_connection(addr(), &history, &policy, 0, &conns);
    assert_eq!(selected, Some(conns[1]));
}

#[test]
fn equal_srtt_returns_the_earliest_candidate() {
    let prefs = ProtocolPreference::new();
    let history = TransportHistory::new();
    let policy = OpportunisticEncryption::disabled();
    let conns = vec![conn(Protocol::Tcp, Some(10_000)), conn(Protocol::Tcp, Some(10_000))];
    let selected = prefs.select_connection(addr(), &history, &policy, 0, &conns);
    assert_eq!(selected, Some(conns[0]));
}

#[test]
fn invalid_srtt_sample_loses_to_any_valid_sample() {
    let prefs = ProtocolPreference::new();
    let history = TransportHistory::new();
    let policy = OpportunisticEncryption::disabled();
    let conns = vec![conn(Protocol::Tcp, None), conn(Protocol::Tcp, Some(900_000))];
    let selected = prefs.select_connection(addr(), &history, &policy, 0, &conns);
    assert_eq!(selected, Some(conns[1]));
}

#[test]
fn lone_candidate_with_invalid_srtt_is_still_returned() {
    let prefs = ProtocolPreference::new();
    let history = TransportHistory::new();
    let policy = OpportunisticEncryption::disabled();
    let conns = vec![conn(Protocol::Tcp, None)];
    let selected = prefs.select_connection(addr(), &history, &policy, 0, &conns);
    assert_eq!(selected, Some(conns[0]));
}

#[test]
fn empty_candidate_list_yields_none() {
    let prefs = ProtocolPreference::new();
    let history = TransportHistory::new();
    let policy = OpportunisticEncryption::disabled();
    let conns: Vec<ConnectionState> = Vec::new();
    let selected = prefs.select_connection(addr(), &history, &policy, 0, &conns);
    assert_eq!(selected, None);
}

#[test]
fn all_candidates_excluded_yields_none() {
    let mut prefs = ProtocolPreference::new();
    prefs.exclude_udp();
    let history = TransportHistory::new();
    let policy = OpportunisticEncryption::disabled();
    let conns = vec![conn(Protocol::Udp, Some(1)), conn(Protocol::Udp, Some(2))];
    let selected = prefs.select_connection(addr(), &history, &policy, 0, &conns);
    assert_eq!(selected, None);
}
