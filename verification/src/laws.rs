//! The selection core's guarantees, stated and proved once and for all.

use core::cmp::Ordering;

use vstd::prelude::*;

use crate::connection::{ConnectionConfig, ConnectionState};
use crate::history::{spec_record_covers, spec_recent_success, ServerAddr, SuccessRecord};
use crate::protocol::Protocol;
use crate::protocol_preference::{
    lemma_scan_configs_bounds, lemma_scan_configs_minimal, lemma_scan_connections_bounds,
    lemma_scan_connections_minimal, spec_allows, spec_best_connection, spec_compare_connections,
    spec_config_key, spec_exclude_udp, spec_rank, spec_select_connection,
    spec_select_connection_config, spec_srtt_order, ProtocolPreference,
};

verus! {

/// With UDP excluded, exactly the plain datagram protocol is refused; with
/// nothing excluded, every protocol is allowed.
pub proof fn lemma_allows_protocol(exclude_udp: bool, protocol: Protocol)
    ensures
        exclude_udp ==> spec_allows(exclude_udp, protocol) == (protocol != Protocol::Udp),
        !exclude_udp ==> spec_allows(exclude_udp, protocol),
{
}

/// The connection selector never returns a connection whose protocol the
/// current preference state disallows, nor one from outside the candidate
/// list.
pub proof fn lemma_selection_respects_preferences(
    exclude_udp: bool,
    encryption_enabled: bool,
    any_recent: bool,
    connections: Seq<ConnectionState>,
    c: ConnectionState,
)
    requires
        spec_select_connection(exclude_udp, encryption_enabled, any_recent, connections)
            == Some(c),
    ensures
        spec_allows(exclude_udp, c.protocol),
        connections.contains(c),
{
    lemma_scan_connections_bounds(
        exclude_udp,
        encryption_enabled,
        connections,
        0,
        Option::None,
    );
}

/// Among allowed candidates of the same protocol as the winner, the winner
/// has the lowest current smoothed round-trip time.  (Which of several
/// equally minimal candidates wins is still deterministic: the selector is
/// a function of its inputs, and the earliest minimum is returned.)
pub proof fn lemma_selection_srtt_minimal(
    exclude_udp: bool,
    encryption_enabled: bool,
    any_recent: bool,
    connections: Seq<ConnectionState>,
    c: ConnectionState,
    j: int,
)
    requires
        spec_select_connection(exclude_udp, encryption_enabled, any_recent, connections)
            == Some(c),
        0 <= j < connections.len(),
        spec_allows(exclude_udp, connections[j].protocol),
        connections[j].protocol == c.protocol,
    ensures
        spec_srtt_order(c.srtt, connections[j].srtt) != Ordering::Greater,
{
    lemma_scan_connections_minimal(
        exclude_udp,
        encryption_enabled,
        connections,
        0,
        Option::None,
    );
    assert(spec_compare_connections(encryption_enabled, c, connections[j])
        != Ordering::Greater);
}

/// The upgrade veto: with the encryption policy enabled, a recent success
/// recorded on some encrypted protocol, and every allowed candidate
/// unencrypted, the selector returns nothing rather than reuse an
/// unencrypted connection, forcing a fresh encrypted one.
pub proof fn lemma_upgrade_veto(
    exclude_udp: bool,
    connections: Seq<ConnectionState>,
)
    requires
        forall|j: int|
            0 <= j < connections.len() && spec_allows(
                exclude_udp,
                #[trigger] connections[j].protocol,
            ) ==> !connections[j].protocol.spec_is_encrypted(),
    ensures
        spec_select_connection(exclude_udp, true, true, connections) is None,
{
    lemma_scan_connections_bounds(exclude_udp, true, connections, 0, Option::None);
    match spec_best_connection(exclude_udp, true, connections) {
        Option::None => {},
        Option::Some(c) => {
            let k = choose|k: int| 0 <= k < connections.len() && connections[k] == c;
            assert(!connections[k].protocol.spec_is_encrypted());
        },
    }
}

/// With the encryption policy enabled and at least one allowed encrypted
/// candidate, the selector returns an encrypted connection, whatever the
/// round-trip times and whatever the oracle reports: an encrypted protocol
/// sorts first purely by protocol class, and the upgrade veto never strikes
/// an encrypted winner.
pub proof fn lemma_encrypted_preferred(
    exclude_udp: bool,
    any_recent: bool,
    connections: Seq<ConnectionState>,
    k: int,
)
    requires
        0 <= k < connections.len(),
        spec_allows(exclude_udp, connections[k].protocol),
        connections[k].protocol.spec_is_encrypted(),
    ensures
        spec_select_connection(exclude_udp, true, any_recent, connections) matches Some(c)
            && c.protocol.spec_is_encrypted(),
{
    lemma_scan_connections_bounds(exclude_udp, true, connections, 0, Option::None);
    lemma_scan_connections_minimal(exclude_udp, true, connections, 0, Option::None);
    match spec_best_connection(exclude_udp, true, connections) {
        Option::None => {
            assert(spec_allows(exclude_udp, connections[k].protocol));
            assert(false);
        },
        Option::Some(c) => {
            assert(spec_compare_connections(true, c, connections[k]) != Ordering::Greater);
            assert(spec_rank(true, connections[k].protocol) == 0);
            assert(c.protocol.spec_is_encrypted()) by {
                if !c.protocol.spec_is_encrypted() {
                    assert(spec_rank(true, c.protocol) >= 1);
                }
            }
        },
    }
}

/// With the encryption policy enabled, if some allowed configuration's
/// exact protocol is encrypted and has a recent recorded success, the
/// config selector returns such a configuration, never one without a
/// recorded success.
pub proof fn lemma_recent_success_config_preferred(
    exclude_udp: bool,
    records: Seq<SuccessRecord>,
    addr: ServerAddr,
    validity_window: u64,
    now: u64,
    configs: Seq<ConnectionConfig>,
    k: int,
)
    requires
        0 <= k < configs.len(),
        spec_allows(exclude_udp, configs[k].protocol),
        configs[k].protocol.spec_is_encrypted(),
        spec_recent_success(records, addr, configs[k].protocol, validity_window, now),
    ensures
        spec_select_connection_config(
            exclude_udp,
            true,
            records,
            addr,
            validity_window,
            now,
            configs,
        ) matches Some(c) && c.protocol.spec_is_encrypted() && spec_recent_success(
            records,
            addr,
            c.protocol,
            validity_window,
            now,
        ),
{
    lemma_scan_configs_bounds(
        exclude_udp,
        true,
        records,
        addr,
        validity_window,
        now,
        configs,
        0,
        Option::None,
    );
    lemma_scan_configs_minimal(
        exclude_udp,
        true,
        records,
        addr,
        validity_window,
        now,
        configs,
        0,
        Option::None,
    );
    match spec_select_connection_config(
        exclude_udp,
        true,
        records,
        addr,
        validity_window,
        now,
        configs,
    ) {
        Option::None => {
            assert(spec_allows(exclude_udp, configs[k].protocol));
            assert(false);
        },
        Option::Some(c) => {
            assert(spec_config_key(true, records, addr, validity_window, now, c)
                <= spec_config_key(true, records, addr, validity_window, now, configs[k]));
            assert(spec_config_key(true, records, addr, validity_window, now, configs[k]) == 0);
        },
    }
}

/// Excluding UDP is idempotent: a second exclusion changes nothing, and
/// UDP stays excluded.
pub proof fn lemma_exclude_udp_idempotent(preference: ProtocolPreference)
    ensures
        spec_exclude_udp(spec_exclude_udp(preference)) == spec_exclude_udp(preference),
        spec_exclude_udp(preference).exclude_udp,
{
}

/// Success records are only ever added: recording one more success cannot
/// make a previously recent success stop being recent, which is what keeps
/// the policy from flapping between transports.
pub proof fn lemma_history_success_monotonic(
    records: Seq<SuccessRecord>,
    record: SuccessRecord,
    addr: ServerAddr,
    protocol: Protocol,
    validity_window: u64,
    now: u64,
)
    requires
        spec_recent_success(records, addr, protocol, validity_window, now),
    ensures
        spec_recent_success(records.push(record), addr, protocol, validity_window, now),
{
    let i = choose|i: int|
        0 <= i < records.len() && spec_record_covers(
            records[i],
            addr,
            protocol,
            validity_window,
            now,
        );
    assert(records.push(record)[i] == records[i]);
    assert(spec_record_covers(records.push(record)[i], addr, protocol, validity_window, now));
}

} // verus!
