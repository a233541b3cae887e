//! Read-only views of live connections and of connection configurations.

use vstd::prelude::*;

use crate::protocol::Protocol;

verus! {

/// The selector's read-only view of one live connection: its protocol and
/// the current sample of its smoothed round-trip-time estimator.
///
/// `srtt` is the latest smoothed round-trip time in the transport layer's
/// clock units; lower is better.  `None` stands for a sample with no valid
/// ordering (an uninitialized or invalid measurement) and compares as worse
/// than every valid sample, so a connection with invalid timing never wins a
/// tie it should not.
#[derive(Clone, Copy, Debug, PartialEq, Eq)]
pub struct ConnectionState {
    pub protocol: Protocol,
    pub srtt: Option<u64>,
}

/// A potential connection that is not yet established: one of the statically
/// configured transports of a name server.
#[derive(Clone, Copy, Debug, PartialEq, Eq, Structural)]
pub struct ConnectionConfig {
    pub protocol: Protocol,
}

impl ConnectionConfig {
    /// The protocol this configuration would establish a connection with.
    pub fn to_protocol(&self) -> (protocol: Protocol)
        ensures
            protocol == self.protocol,
    {
        self.protocol
    }
}

} // verus!
