//! The transport-history oracle: which encrypted transports of a name
//! server have recently succeeded.

use vstd::prelude::*;

use crate::policy::OpportunisticEncryption;
use crate::protocol::Protocol;

verus! {

/// The destination address of a name server, as an IP address (IPv4
/// addresses in their IPv6-mapped form fit as well) and a port.
#[derive(Clone, Copy, Debug, PartialEq, Eq, Hash, Structural)]
pub struct ServerAddr {
    pub ip: u128,
    pub port: u16,
}

/// One recorded successful connection or handshake: which protocol
/// succeeded towards which address, and when.
#[derive(Clone, Copy, Debug, PartialEq, Eq, Hash, Structural)]
pub struct SuccessRecord {
    pub addr: ServerAddr,
    pub protocol: Protocol,
    pub recorded_at: u64,
}

/// Whether `record` makes a success for `protocol` towards `addr` recent at
/// time `now`, under a validity window of `validity_window` clock units.
pub open spec fn spec_record_covers(
    record: SuccessRecord,
    addr: ServerAddr,
    protocol: Protocol,
    validity_window: u64,
    now: u64,
) -> bool {
    &&& record.addr == addr
    &&& record.protocol == protocol
    &&& now <= record.recorded_at + validity_window
}

/// Whether a success for exactly `protocol` towards `addr` was recorded
/// within the validity window ending at `now`.
pub open spec fn spec_recent_success(
    records: Seq<SuccessRecord>,
    addr: ServerAddr,
    protocol: Protocol,
    validity_window: u64,
    now: u64,
) -> bool {
    exists|i: int|
        0 <= i < records.len() && #[trigger] spec_record_covers(
            records[i],
            addr,
            protocol,
            validity_window,
            now,
        )
}

/// Whether some encrypted protocol has a recent recorded success towards
/// `addr`.
pub open spec fn spec_any_recent_success(
    records: Seq<SuccessRecord>,
    addr: ServerAddr,
    validity_window: u64,
    now: u64,
) -> bool {
    exists|protocol: Protocol|
        protocol.spec_is_encrypted() && #[trigger] spec_recent_success(
            records,
            addr,
            protocol,
            validity_window,
            now,
        )
}

/// The transport-history oracle.
///
/// It records, per destination address and protocol, the successful
/// connection attempts the transport layer reports, and answers whether a
/// success is recent under a policy's validity window.  Records are only
/// ever added, never erased: entries age out implicitly through the window
/// check, so a later failure cannot hide an earlier success that is still
/// within the window.
#[derive(Debug)]
pub struct TransportHistory {
    records: Vec<SuccessRecord>,
}

impl View for TransportHistory {
    type V = Seq<SuccessRecord>;

    closed spec fn view(&self) -> Seq<SuccessRecord> {
        self.records@
    }
}

impl TransportHistory {
    /// An oracle with nothing recorded yet.
    pub fn new() -> (history: Self)
        ensures
            history@ == Seq::<SuccessRecord>::empty(),
    {
        TransportHistory { records: Vec::new() }
    }

    /// Records that a connection or handshake over `protocol` towards
    /// `addr` succeeded at time `now`.  Nothing already recorded is
    /// touched.
    pub fn record_success(&mut self, addr: ServerAddr, protocol: Protocol, now: u64)
        ensures
            final(self)@ == old(self)@.push(
                SuccessRecord { addr, protocol, recorded_at: now },
            ),
    {
        self.records.push(SuccessRecord { addr, protocol, recorded_at: now });
    }

    /// Whether a success for exactly `protocol` towards `addr` was recorded
    /// within `policy`'s validity window ending at `now`.
    pub fn recent_success(
        &self,
        addr: ServerAddr,
        protocol: Protocol,
        policy: &OpportunisticEncryption,
        now: u64,
    ) -> (recent: bool)
        ensures
            recent == spec_recent_success(self@, addr, protocol, policy.validity_window, now),
    {
        let n = self.records.len();
        let mut i: usize = 0;
        while i < n
            invariant
                n == self.records.len(),
                0 <= i <= n,
                forall|j: int|
                    0 <= j < i ==> !spec_record_covers(
                        self@[j],
                        addr,
                        protocol,
                        policy.validity_window,
                        now,
                    ),
            decreases n - i,
        {
            if record_covers(&self.records[i], addr, protocol, policy.validity_window, now) {
                return true;
            }
            i = i + 1;
        }
        false
    }

    /// Whether any encrypted protocol has a recent recorded success towards
    /// `addr` under `policy`'s validity window ending at `now`.
    pub fn any_recent_success(
        &self,
        addr: ServerAddr,
        policy: &OpportunisticEncryption,
        now: u64,
    ) -> (recent: bool)
        ensures
            recent == spec_any_recent_success(self@, addr, policy.validity_window, now),
    {
        let n = self.records.len();
        let mut i: usize = 0;
        while i < n
            invariant
                n == self.records.len(),
                0 <= i <= n,
                forall|j: int|
                    0 <= j < i ==> !(self@[j].protocol.spec_is_encrypted()
                        && #[trigger] spec_record_covers(
                        self@[j],
                        addr,
                        self@[j].protocol,
                        policy.validity_window,
                        now,
                    )),
            decreases n - i,
        {
            let record = self.records[i];
            if record.protocol.is_encrypted() && record_covers(
                &record,
                addr,
                record.protocol,
                policy.validity_window,
                now,
            ) {
                proof {
                    assert(spec_recent_success(
                        self@,
                        addr,
                        record.protocol,
                        policy.validity_window,
                        now,
                    ));
                }
                return true;
            }
            i = i + 1;
        }
        proof {
            if spec_any_recent_success(self@, addr, policy.validity_window, now) {
                let p = choose|p: Protocol|
                    p.spec_is_encrypted() && spec_recent_success(
                        self@,
                        addr,
                        p,
                        policy.validity_window,
                        now,
                    );
                let j = choose|j: int|
                    0 <= j < self@.len() && spec_record_covers(
                        self@[j],
                        addr,
                        p,
                        policy.validity_window,
                        now,
                    );
                assert(self@[j].protocol == p);
                assert(spec_record_covers(
                    self@[j],
                    addr,
                    self@[j].protocol,
                    policy.validity_window,
                    now,
                ));
                assert(false);
            }
        }
        false
    }
}

/// Whether `record` makes a success for `protocol` towards `addr` recent at
/// time `now`, avoiding overflow in the window arithmetic.
fn record_covers(
    record: &SuccessRecord,
    addr: ServerAddr,
    protocol: Protocol,
    validity_window: u64,
    now: u64,
) -> (covers: bool)
    ensures
        covers == spec_record_covers(*record, addr, protocol, validity_window, now),
{
    if record.addr == addr && record.protocol == protocol {
        if record.recorded_at >= now {
            true
        } else {
            now - record.recorded_at <= validity_window
        }
    } else {
        false
    }
}

} // verus!
