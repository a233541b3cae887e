//! The transport protocols a name server connection can use.

use vstd::prelude::*;

verus! {

/// A DNS transport protocol.
///
/// `Udp` is the plain datagram transport, `Tcp` the connection-oriented
/// cleartext transport, and `Tls`, `Https` and `Quic` the
/// connection-oriented encrypted transports.
#[derive(Clone, Copy, Debug, PartialEq, Eq, Hash, Structural)]
pub enum Protocol {
    Udp,
    Tcp,
    Tls,
    Https,
    Quic,
}

impl Protocol {
    /// Whether this protocol encrypts its traffic.
    pub open spec fn spec_is_encrypted(&self) -> bool {
        match self {
            Protocol::Udp => false,
            Protocol::Tcp => false,
            Protocol::Tls => true,
            Protocol::Https => true,
            Protocol::Quic => true,
        }
    }

    /// Whether this protocol encrypts its traffic: true for the TLS, HTTPS
    /// and QUIC transports, false for plain UDP and TCP.
    #[verifier::when_used_as_spec(spec_is_encrypted)]
    pub fn is_encrypted(&self) -> (encrypted: bool)
        ensures
            encrypted == self.spec_is_encrypted(),
    {
        match self {
            Protocol::Udp => false,
            Protocol::Tcp => false,
            Protocol::Tls => true,
            Protocol::Https => true,
            Protocol::Quic => true,
        }
    }

    /// Whether this is the plain datagram protocol.
    pub open spec fn spec_is_datagram(&self) -> bool {
        match self {
            Protocol::Udp => true,
            _ => false,
        }
    }

    /// Whether this is the plain datagram protocol.
    #[verifier::when_used_as_spec(spec_is_datagram)]
    pub fn is_datagram(&self) -> (datagram: bool)
        ensures
            datagram == self.spec_is_datagram(),
    {
        match self {
            Protocol::Udp => true,
            _ => false,
        }
    }
}

} // verus!
