//! Protocol preferences and the two transport selectors.

use core::cmp::Ordering;

use vstd::prelude::*;

use crate::connection::{ConnectionConfig, ConnectionState};
use crate::history::{
    spec_any_recent_success, spec_recent_success, ServerAddr, SuccessRecord, TransportHistory,
};
use crate::policy::OpportunisticEncryption;
use crate::protocol::Protocol;

verus! {

/// Whether `protocol` satisfies a preference state whose UDP-exclusion flag
/// is `exclude_udp`: false exactly when UDP is excluded and `protocol` is
/// the plain datagram protocol.
pub open spec fn spec_allows(exclude_udp: bool, protocol: Protocol) -> bool {
    !(exclude_udp && protocol == Protocol::Udp)
}

/// The protocol class a live connection sorts by, lower first.
///
/// With the encryption policy enabled, an encrypted protocol sorts strictly
/// before any unencrypted one; among the unencrypted ones the plain
/// datagram protocol sorts first.  With the policy disabled, the plain
/// datagram protocol sorts before any other and all remaining protocols
/// share one class.  Equal protocols always share a class, so ties fall
/// through to the round-trip-time comparison.
pub open spec fn spec_rank(encryption_enabled: bool, protocol: Protocol) -> int {
    if encryption_enabled {
        if protocol.spec_is_encrypted() {
            0
        } else if protocol == Protocol::Udp {
            1
        } else {
            2
        }
    } else {
        if protocol == Protocol::Udp {
            0
        } else {
            1
        }
    }
}

/// Total order on smoothed round-trip-time samples: valid samples order by
/// value, and a sample with no valid ordering (`None`) is greater than
/// every valid sample.
pub open spec fn spec_srtt_order(a: Option<u64>, b: Option<u64>) -> Ordering {
    match (a, b) {
        (Option::Some(x), Option::Some(y)) => if x < y {
            Ordering::Less
        } else if x > y {
            Ordering::Greater
        } else {
            Ordering::Equal
        },
        (Option::Some(_), Option::None) => Ordering::Less,
        (Option::None, Option::Some(_)) => Ordering::Greater,
        (Option::None, Option::None) => Ordering::Equal,
    }
}

/// The live-connection ordering: first by protocol class under the current
/// encryption policy, then by current smoothed round-trip time.
pub open spec fn spec_compare_connections(
    encryption_enabled: bool,
    a: ConnectionState,
    b: ConnectionState,
) -> Ordering {
    if spec_rank(encryption_enabled, a.protocol) < spec_rank(encryption_enabled, b.protocol) {
        Ordering::Less
    } else if spec_rank(encryption_enabled, a.protocol) > spec_rank(
        encryption_enabled,
        b.protocol,
    ) {
        Ordering::Greater
    } else {
        spec_srtt_order(a.srtt, b.srtt)
    }
}

/// One scan step of the live-connection minimum: `best` after considering
/// `connections[i]`.  A candidate replaces `best` only when it is allowed
/// and strictly smaller, so of equally minimal candidates the earliest one
/// wins.
pub open spec fn spec_scan_step(
    exclude_udp: bool,
    encryption_enabled: bool,
    candidate: ConnectionState,
    best: Option<ConnectionState>,
) -> Option<ConnectionState> {
    if !spec_allows(exclude_udp, candidate.protocol) {
        best
    } else {
        match best {
            Option::None => Option::Some(candidate),
            Option::Some(b) => if spec_compare_connections(encryption_enabled, candidate, b)
                == Ordering::Less {
                Option::Some(candidate)
            } else {
                Option::Some(b)
            },
        }
    }
}

/// The minimum allowed live connection among `connections[i..]`, starting
/// from the accumulator `best`.
pub open spec fn spec_scan_connections(
    exclude_udp: bool,
    encryption_enabled: bool,
    connections: Seq<ConnectionState>,
    i: int,
    best: Option<ConnectionState>,
) -> Option<ConnectionState>
    decreases connections.len() - i,
{
    if i < 0 || i >= connections.len() {
        best
    } else {
        spec_scan_connections(
            exclude_udp,
            encryption_enabled,
            connections,
            i + 1,
            spec_scan_step(exclude_udp, encryption_enabled, connections[i], best),
        )
    }
}

/// The minimum allowed live connection of the whole candidate list.
pub open spec fn spec_best_connection(
    exclude_udp: bool,
    encryption_enabled: bool,
    connections: Seq<ConnectionState>,
) -> Option<ConnectionState> {
    spec_scan_connections(exclude_udp, encryption_enabled, connections, 0, Option::None)
}

/// What `select_connection` returns: the minimum allowed candidate, unless
/// the encryption policy is enabled, that candidate is unencrypted, and
/// some encrypted protocol has a recent success — then nothing, which
/// forces the caller to establish a fresh encrypted connection.
pub open spec fn spec_select_connection(
    exclude_udp: bool,
    encryption_enabled: bool,
    any_recent: bool,
    connections: Seq<ConnectionState>,
) -> Option<ConnectionState> {
    match spec_best_connection(exclude_udp, encryption_enabled, connections) {
        Option::None => Option::None,
        Option::Some(c) => if encryption_enabled && !c.protocol.spec_is_encrypted()
            && any_recent {
            Option::None
        } else {
            Option::Some(c)
        },
    }
}

/// The class a connection configuration sorts by, lower first.
///
/// With the encryption policy enabled, a configuration whose protocol is
/// encrypted and has a recent recorded success sorts before everything
/// else; among the rest the plain datagram protocol sorts first and all
/// remaining protocols are equally ranked.  With the policy disabled only
/// the datagram-first fallback applies.
pub open spec fn spec_config_rank(
    encryption_enabled: bool,
    recent: bool,
    protocol: Protocol,
) -> int {
    if encryption_enabled && protocol.spec_is_encrypted() && recent {
        0
    } else if protocol == Protocol::Udp {
        1
    } else {
        2
    }
}

/// The class of `config` given the recorded history towards `addr`.
pub open spec fn spec_config_key(
    encryption_enabled: bool,
    records: Seq<SuccessRecord>,
    addr: ServerAddr,
    validity_window: u64,
    now: u64,
    config: ConnectionConfig,
) -> int {
    spec_config_rank(
        encryption_enabled,
        spec_recent_success(records, addr, config.protocol, validity_window, now),
        config.protocol,
    )
}

/// One scan step of the configuration minimum: `best` after considering
/// `candidate`.
pub open spec fn spec_config_scan_step(
    exclude_udp: bool,
    encryption_enabled: bool,
    records: Seq<SuccessRecord>,
    addr: ServerAddr,
    validity_window: u64,
    now: u64,
    candidate: ConnectionConfig,
    best: Option<ConnectionConfig>,
) -> Option<ConnectionConfig> {
    if !spec_allows(exclude_udp, candidate.protocol) {
        best
    } else {
        match best {
            Option::None => Option::Some(candidate),
            Option::Some(b) => if spec_config_key(
                encryption_enabled,
                records,
                addr,
                validity_window,
                now,
                candidate,
            ) < spec_config_key(encryption_enabled, records, addr, validity_window, now, b) {
                Option::Some(candidate)
            } else {
                Option::Some(b)
            },
        }
    }
}

/// The minimum allowed configuration among `configs[i..]`, starting from
/// the accumulator `best`.
pub open spec fn spec_scan_configs(
    exclude_udp: bool,
    encryption_enabled: bool,
    records: Seq<SuccessRecord>,
    addr: ServerAddr,
    validity_window: u64,
    now: u64,
    configs: Seq<ConnectionConfig>,
    i: int,
    best: Option<ConnectionConfig>,
) -> Option<ConnectionConfig>
    decreases configs.len() - i,
{
    if i < 0 || i >= configs.len() {
        best
    } else {
        spec_scan_configs(
            exclude_udp,
            encryption_enabled,
            records,
            addr,
            validity_window,
            now,
            configs,
            i + 1,
            spec_config_scan_step(
                exclude_udp,
                encryption_enabled,
                records,
                addr,
                validity_window,
                now,
                configs[i],
                best,
            ),
        )
    }
}

/// What `select_connection_config` returns.
pub open spec fn spec_select_connection_config(
    exclude_udp: bool,
    encryption_enabled: bool,
    records: Seq<SuccessRecord>,
    addr: ServerAddr,
    validity_window: u64,
    now: u64,
    configs: Seq<ConnectionConfig>,
) -> Option<ConnectionConfig> {
    spec_scan_configs(
        exclude_udp,
        encryption_enabled,
        records,
        addr,
        validity_window,
        now,
        configs,
        0,
        Option::None,
    )
}

/// The preference state after UDP has been excluded.
pub open spec fn spec_exclude_udp(preference: ProtocolPreference) -> ProtocolPreference {
    ProtocolPreference { exclude_udp: true }
}

/// Manages protocol selection preferences and exclusions for DNS queries.
///
/// A fresh value allows every protocol; after a truncated response or a
/// suspected-spoof condition the caller excludes UDP, a one-way transition
/// that lasts for the rest of the query attempt.
#[derive(Clone, Copy, Debug, PartialEq, Eq, Structural)]
pub struct ProtocolPreference {
    pub exclude_udp: bool,
}

impl ProtocolPreference {
    /// A fresh preference state: every protocol is allowed.
    pub fn new() -> (preference: Self)
        ensures
            !preference.exclude_udp,
    {
        ProtocolPreference { exclude_udp: false }
    }

    /// Checks if the given protocol is allowed by current preferences.
    pub fn allows_protocol(&self, protocol: Protocol) -> (allowed: bool)
        ensures
            allowed == spec_allows(self.exclude_udp, protocol),
    {
        !(self.exclude_udp && protocol.is_datagram())
    }

    /// Checks if the given server has any protocols compatible with
    /// current preferences, given the protocols it currently offers.
    pub fn allows_server(&self, server_protocols: &Vec<Protocol>) -> (allowed: bool)
        ensures
            allowed == exists|i: int|
                0 <= i < server_protocols@.len() && spec_allows(
                    self.exclude_udp,
                    #[trigger] server_protocols@[i],
                ),
    {
        let n = server_protocols.len();
        let mut i: usize = 0;
        while i < n
            invariant
                n == server_protocols@.len(),
                0 <= i <= n,
                forall|j: int|
                    0 <= j < i ==> !spec_allows(
                        self.exclude_udp,
                        #[trigger] server_protocols@[j],
                    ),
            decreases n - i,
        {
            if self.allows_protocol(server_protocols[i]) {
                return true;
            }
            i = i + 1;
        }
        false
    }

    /// Exclude UDP when considering protocols.
    ///
    /// This is useful for re-trying over a connection-oriented protocol
    /// after a truncated response, or after a response that may have been
    /// spoofed (a query case randomization mismatch, for example).  The
    /// transition is one-way and idempotent.
    pub fn exclude_udp(&mut self)
        ensures
            *final(self) == spec_exclude_udp(*old(self)),
    {
        self.exclude_udp = true;
    }

    /// Whether UDP is currently excluded.
    pub fn udp_excluded(&self) -> (excluded: bool)
        ensures
            excluded == self.exclude_udp,
    {
        self.exclude_udp
    }

    /// Select the best pre-existing connection to use for a query towards
    /// `addr`.
    ///
    /// Among the candidates whose protocol the preferences allow, the
    /// minimum under the live-connection ordering wins.  When the
    /// encryption policy is enabled, the winner is unencrypted, and the
    /// history oracle reports a recent success on any encrypted protocol,
    /// nothing is returned, so the caller establishes a fresh encrypted
    /// connection instead of reusing a stale unencrypted one.
    pub fn select_connection(
        &self,
        addr: ServerAddr,
        history: &TransportHistory,
        policy: &OpportunisticEncryption,
        now: u64,
        connections: &Vec<ConnectionState>,
    ) -> (selected: Option<ConnectionState>)
        ensures
            selected == spec_select_connection(
                self.exclude_udp,
                policy.enabled,
                spec_any_recent_success(history@, addr, policy.validity_window, now),
                connections@,
            ),
            selected matches Some(c) ==> spec_allows(self.exclude_udp, c.protocol)
                && connections@.contains(c),
            (forall|j: int|
                0 <= j < connections@.len() ==> !spec_allows(
                    self.exclude_udp,
                    #[trigger] connections@[j].protocol,
                )) ==> selected is None,
            ((exists|j: int|
                0 <= j < connections@.len() && spec_allows(
                    self.exclude_udp,
                    #[trigger] connections@[j].protocol,
                )) && !(policy.enabled && spec_any_recent_success(
                history@,
                addr,
                policy.validity_window,
                now,
            ))) ==> selected is Some,
    {
        let encryption_enabled = policy.is_enabled();
        let n = connections.len();
        let mut best: Option<ConnectionState> = None;
        let mut i: usize = 0;
        while i < n
            invariant
                n == connections@.len(),
                0 <= i <= n,
                encryption_enabled == policy.enabled,
                spec_scan_connections(
                    self.exclude_udp,
                    policy.enabled,
                    connections@,
                    i as int,
                    best,
                ) == spec_best_connection(self.exclude_udp, policy.enabled, connections@),
            decreases n - i,
        {
            let candidate = connections[i];
            if self.allows_protocol(candidate.protocol) {
                best = match best {
                    None => Some(candidate),
                    Some(b) => match compare_connections(encryption_enabled, &candidate, &b) {
                        Ordering::Less => Some(candidate),
                        _ => Some(b),
                    },
                };
            }
            i = i + 1;
        }
        proof {
            lemma_scan_connections_bounds(
                self.exclude_udp,
                policy.enabled,
                connections@,
                0,
                Option::None,
            );
            lemma_scan_connections_minimal(
                self.exclude_udp,
                policy.enabled,
                connections@,
                0,
                Option::None,
            );
        }
        match best {
            None => None,
            Some(c) => {
                if encryption_enabled && !c.protocol.is_encrypted() && history.any_recent_success(
                    addr,
                    policy,
                    now,
                ) {
                    None
                } else {
                    Some(c)
                }
            },
        }
    }

    /// Select which new connection to establish for a query towards
    /// `addr`, when no live connection is available or acceptable.
    ///
    /// There is no live round-trip time to compare before a connection
    /// exists, so recorded historical success is the only reachability
    /// signal: with the encryption policy enabled, a configuration whose
    /// exact protocol has a recent recorded success is preferred over
    /// everything else; the fallback ordering puts the plain datagram
    /// protocol first and leaves the rest equally ranked, ties broken by
    /// input order.
    pub fn select_connection_config(
        &self,
        addr: ServerAddr,
        history: &TransportHistory,
        policy: &OpportunisticEncryption,
        now: u64,
        configs: &Vec<ConnectionConfig>,
    ) -> (selected: Option<ConnectionConfig>)
        ensures
            selected == spec_select_connection_config(
                self.exclude_udp,
                policy.enabled,
                history@,
                addr,
                policy.validity_window,
                now,
                configs@,
            ),
            selected matches Some(c) ==> spec_allows(self.exclude_udp, c.protocol)
                && configs@.contains(c),
            (selected is None) == (forall|j: int|
                0 <= j < configs@.len() ==> !spec_allows(
                    self.exclude_udp,
                    #[trigger] configs@[j].protocol,
                )),
    {
        let encryption_enabled = policy.is_enabled();
        let n = configs.len();
        let mut best: Option<ConnectionConfig> = None;
        let mut best_rank: u8 = 0;
        let mut i: usize = 0;
        while i < n
            invariant
                n == configs@.len(),
                0 <= i <= n,
                encryption_enabled == policy.enabled,
                best matches Some(b) ==> best_rank as int == spec_config_key(
                    policy.enabled,
                    history@,
                    addr,
                    policy.validity_window,
                    now,
                    b,
                ),
                spec_scan_configs(
                    self.exclude_udp,
                    policy.enabled,
                    history@,
                    addr,
                    policy.validity_window,
                    now,
                    configs@,
                    i as int,
                    best,
                ) == spec_select_connection_config(
                    self.exclude_udp,
                    policy.enabled,
                    history@,
                    addr,
                    policy.validity_window,
                    now,
                    configs@,
                ),
            decreases n - i,
        {
            let candidate = configs[i];
            if self.allows_protocol(candidate.protocol) {
                let recent = history.recent_success(addr, candidate.protocol, policy, now);
                let rank = config_rank(encryption_enabled, recent, candidate.protocol);
                match best {
                    None => {
                        best = Some(candidate);
                        best_rank = rank;
                    },
                    Some(_) => {
                        if rank < best_rank {
                            best = Some(candidate);
                            best_rank = rank;
                        }
                    },
                }
            }
            i = i + 1;
        }
        proof {
            lemma_scan_configs_bounds(
                self.exclude_udp,
                policy.enabled,
                history@,
                addr,
                policy.validity_window,
                now,
                configs@,
                0,
                Option::None,
            );
        }
        best
    }
}

impl Default for ProtocolPreference {
    /// The default preference state allows every protocol.
    fn default() -> (preference: Self)
        ensures
            !preference.exclude_udp,
    {
        ProtocolPreference { exclude_udp: false }
    }
}

/// The executable protocol class of a live connection; see `spec_rank`.
fn protocol_rank(encryption_enabled: bool, protocol: Protocol) -> (rank: u8)
    ensures
        rank as int == spec_rank(encryption_enabled, protocol),
{
    if encryption_enabled {
        if protocol.is_encrypted() {
            0
        } else if protocol.is_datagram() {
            1
        } else {
            2
        }
    } else {
        if protocol.is_datagram() {
            0
        } else {
            1
        }
    }
}

/// The executable round-trip-time order; see `spec_srtt_order`.
fn srtt_order(a: Option<u64>, b: Option<u64>) -> (order: Ordering)
    ensures
        order == spec_srtt_order(a, b),
{
    match (a, b) {
        (Some(x), Some(y)) => if x < y {
            Ordering::Less
        } else if x > y {
            Ordering::Greater
        } else {
            Ordering::Equal
        },
        (Some(_), None) => Ordering::Less,
        (None, Some(_)) => Ordering::Greater,
        (None, None) => Ordering::Equal,
    }
}

/// Compare two connections according to preferences and performance; see
/// `spec_compare_connections`.
fn compare_connections(
    encryption_enabled: bool,
    a: &ConnectionState,
    b: &ConnectionState,
) -> (order: Ordering)
    ensures
        order == spec_compare_connections(encryption_enabled, *a, *b),
{
    let rank_a = protocol_rank(encryption_enabled, a.protocol);
    let rank_b = protocol_rank(encryption_enabled, b.protocol);
    if rank_a < rank_b {
        Ordering::Less
    } else if rank_a > rank_b {
        Ordering::Greater
    } else {
        srtt_order(a.srtt, b.srtt)
    }
}

/// The executable class of a connection configuration; see
/// `spec_config_rank`.
fn config_rank(encryption_enabled: bool, recent: bool, protocol: Protocol) -> (rank: u8)
    ensures
        rank as int == spec_config_rank(encryption_enabled, recent, protocol),
{
    if encryption_enabled && protocol.is_encrypted() && recent {
        0
    } else if protocol.is_datagram() {
        1
    } else {
        2
    }
}

/// Exchanging the two sides of the live-connection ordering flips the
/// outcome.
pub proof fn lemma_compare_connections_flip(
    encryption_enabled: bool,
    a: ConnectionState,
    b: ConnectionState,
)
    ensures
        (spec_compare_connections(encryption_enabled, a, b) == Ordering::Less)
            == (spec_compare_connections(encryption_enabled, b, a) == Ordering::Greater),
        (spec_compare_connections(encryption_enabled, a, b) == Ordering::Equal)
            == (spec_compare_connections(encryption_enabled, b, a) == Ordering::Equal),
{
}

/// The live-connection ordering is transitive in its non-strict form.
pub proof fn lemma_compare_connections_trans(
    encryption_enabled: bool,
    a: ConnectionState,
    b: ConnectionState,
    c: ConnectionState,
)
    requires
        spec_compare_connections(encryption_enabled, a, b) != Ordering::Greater,
        spec_compare_connections(encryption_enabled, b, c) != Ordering::Greater,
    ensures
        spec_compare_connections(encryption_enabled, a, c) != Ordering::Greater,
{
}

/// The scan of the live connections returns an allowed candidate from the
/// list (or the accumulator), and returns nothing exactly when it started
/// from nothing and no remaining candidate is allowed.
pub proof fn lemma_scan_connections_bounds(
    exclude_udp: bool,
    encryption_enabled: bool,
    connections: Seq<ConnectionState>,
    i: int,
    best: Option<ConnectionState>,
)
    requires
        0 <= i <= connections.len(),
        best matches Some(b) ==> spec_allows(exclude_udp, b.protocol) && connections.contains(b),
    ensures
        spec_scan_connections(exclude_udp, encryption_enabled, connections, i, best)
            matches Some(c) ==> spec_allows(exclude_udp, c.protocol) && connections.contains(c),
        (spec_scan_connections(exclude_udp, encryption_enabled, connections, i, best) is None)
            == (best is None && forall|j: int|
            i <= j < connections.len() ==> !spec_allows(
                exclude_udp,
                #[trigger] connections[j].protocol,
            )),
    decreases connections.len() - i,
{
    if i < connections.len() {
        let next = spec_scan_step(exclude_udp, encryption_enabled, connections[i], best);
        assert(next matches Some(c) ==> spec_allows(exclude_udp, c.protocol)
            && connections.contains(c)) by {
            if spec_allows(exclude_udp, connections[i].protocol) {
                assert(connections[i] == connections[i]);
            }
        }
        lemma_scan_connections_bounds(exclude_udp, encryption_enabled, connections, i + 1, next);
    }
}

/// The scan of the live connections returns a minimum: no allowed
/// candidate of the list sorts strictly before the returned one.
pub proof fn lemma_scan_connections_minimal(
    exclude_udp: bool,
    encryption_enabled: bool,
    connections: Seq<ConnectionState>,
    i: int,
    best: Option<ConnectionState>,
)
    requires
        0 <= i <= connections.len(),
        best is None ==> forall|j: int|
            0 <= j < i ==> !spec_allows(exclude_udp, #[trigger] connections[j].protocol),
        best matches Some(b) ==> forall|j: int|
            0 <= j < i && spec_allows(exclude_udp, #[trigger] connections[j].protocol)
                ==> spec_compare_connections(encryption_enabled, b, connections[j])
                != Ordering::Greater,
    ensures
        spec_scan_connections(exclude_udp, encryption_enabled, connections, i, best)
            matches Some(c) ==> forall|j: int|
            0 <= j < connections.len() && spec_allows(
                exclude_udp,
                #[trigger] connections[j].protocol,
            ) ==> spec_compare_connections(encryption_enabled, c, connections[j])
            != Ordering::Greater,
    decreases connections.len() - i,
{
    if i < connections.len() {
        let candidate = connections[i];
        let next = spec_scan_step(exclude_udp, encryption_enabled, candidate, best);
        assert(next matches Some(nb) ==> forall|j: int|
            0 <= j < i + 1 && spec_allows(exclude_udp, #[trigger] connections[j].protocol)
                ==> spec_compare_connections(encryption_enabled, nb, connections[j])
                != Ordering::Greater) by {
            if spec_allows(exclude_udp, candidate.protocol) {
                match best {
                    Option::None => {
                        assert forall|j: int|
                            0 <= j < i + 1 && spec_allows(
                                exclude_udp,
                                #[trigger] connections[j].protocol,
                            ) implies spec_compare_connections(
                            encryption_enabled,
                            candidate,
                            connections[j],
                        ) != Ordering::Greater by {
                            if j < i {
                            } else {
                                lemma_compare_connections_flip(
                                    encryption_enabled,
                                    candidate,
                                    candidate,
                                );
                            }
                        }
                    },
                    Option::Some(b) => {
                        if spec_compare_connections(encryption_enabled, candidate, b)
                            == Ordering::Less {
                            assert forall|j: int|
                                0 <= j < i + 1 && spec_allows(
                                    exclude_udp,
                                    #[trigger] connections[j].protocol,
                                ) implies spec_compare_connections(
                                encryption_enabled,
                                candidate,
                                connections[j],
                            ) != Ordering::Greater by {
                                if j < i {
                                    lemma_compare_connections_trans(
                                        encryption_enabled,
                                        candidate,
                                        b,
                                        connections[j],
                                    );
                                } else {
                                    lemma_compare_connections_flip(
                                        encryption_enabled,
                                        candidate,
                                        candidate,
                                    );
                                }
                            }
                        } else {
                            assert forall|j: int|
                                0 <= j < i + 1 && spec_allows(
                                    exclude_udp,
                                    #[trigger] connections[j].protocol,
                                ) implies spec_compare_connections(
                                encryption_enabled,
                                b,
                                connections[j],
                            ) != Ordering::Greater by {
                                if j == i {
                                    lemma_compare_connections_flip(
                                        encryption_enabled,
                                        candidate,
                                        b,
                                    );
                                }
                            }
                        }
                    },
                }
            }
        }
        lemma_scan_connections_minimal(exclude_udp, encryption_enabled, connections, i + 1, next);
    }
}

/// The scan of the configurations returns an allowed configuration from
/// the list (or the accumulator), and returns nothing exactly when it
/// started from nothing and no remaining configuration is allowed.
pub proof fn lemma_scan_configs_bounds(
    exclude_udp: bool,
    encryption_enabled: bool,
    records: Seq<SuccessRecord>,
    addr: ServerAddr,
    validity_window: u64,
    now: u64,
    configs: Seq<ConnectionConfig>,
    i: int,
    best: Option<ConnectionConfig>,
)
    requires
        0 <= i <= configs.len(),
        best matches Some(b) ==> spec_allows(exclude_udp, b.protocol) && configs.contains(b),
    ensures
        spec_scan_configs(
            exclude_udp,
            encryption_enabled,
            records,
            addr,
            validity_window,
            now,
            configs,
            i,
            best,
        ) matches Some(c) ==> spec_allows(exclude_udp, c.protocol) && configs.contains(c),
        (spec_scan_configs(
            exclude_udp,
            encryption_enabled,
            records,
            addr,
            validity_window,
            now,
            configs,
            i,
            best,
        ) is None) == (best is None && forall|j: int|
            i <= j < configs.len() ==> !spec_allows(exclude_udp, #[trigger] configs[j].protocol)),
    decreases configs.len() - i,
{
    if i < configs.len() {
        let next = spec_config_scan_step(
            exclude_udp,
            encryption_enabled,
            records,
            addr,
            validity_window,
            now,
            configs[i],
            best,
        );
        assert(next matches Some(c) ==> spec_allows(exclude_udp, c.protocol) && configs.contains(
            c,
        )) by {
            if spec_allows(exclude_udp, configs[i].protocol) {
                assert(configs[i] == configs[i]);
            }
        }
        lemma_scan_configs_bounds(
            exclude_udp,
            encryption_enabled,
            records,
            addr,
            validity_window,
            now,
            configs,
            i + 1,
            next,
        );
    }
}

/// The scan of the configurations returns a minimum: no allowed
/// configuration of the list has a strictly smaller class than the
/// returned one.
pub proof fn lemma_scan_configs_minimal(
    exclude_udp: bool,
    encryption_enabled: bool,
    records: Seq<SuccessRecord>,
    addr: ServerAddr,
    validity_window: u64,
    now: u64,
    configs: Seq<ConnectionConfig>,
    i: int,
    best: Option<ConnectionConfig>,
)
    requires
        0 <= i <= configs.len(),
        best is None ==> forall|j: int|
            0 <= j < i ==> !spec_allows(exclude_udp, #[trigger] configs[j].protocol),
        best matches Some(b) ==> forall|j: int|
            0 <= j < i && spec_allows(exclude_udp, #[trigger] configs[j].protocol)
                ==> spec_config_key(encryption_enabled, records, addr, validity_window, now, b)
                <= spec_config_key(
                encryption_enabled,
                records,
                addr,
                validity_window,
                now,
                configs[j],
            ),
    ensures
        spec_scan_configs(
            exclude_udp,
            encryption_enabled,
            records,
            addr,
            validity_window,
            now,
            configs,
            i,
            best,
        ) matches Some(c) ==> forall|j: int|
            0 <= j < configs.len() && spec_allows(exclude_udp, #[trigger] configs[j].protocol)
                ==> spec_config_key(encryption_enabled, records, addr, validity_window, now, c)
                <= spec_config_key(
                encryption_enabled,
                records,
                addr,
                validity_window,
                now,
                configs[j],
            ),
    decreases configs.len() - i,
{
    if i < configs.len() {
        let next = spec_config_scan_step(
            exclude_udp,
            encryption_enabled,
            records,
            addr,
            validity_window,
            now,
            configs[i],
            best,
        );
        lemma_scan_configs_minimal(
            exclude_udp,
            encryption_enabled,
            records,
            addr,
            validity_window,
            now,
            configs,
            i + 1,
            next,
        );
    }
}

} // verus!
