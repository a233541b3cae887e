//! Transport-selection core of a DNS resolver client.
//!
//! Given the connections a name server already has, or the connection
//! configurations it could establish, this library decides which transport
//! should carry the next outgoing query.  The decision balances measured
//! latency, anti-spoofing exclusions (dropping UDP after a truncated or
//! suspect response), and an opportunistic-encryption policy that prefers
//! encrypted transports once they have recently proven reachable.

pub mod connection;
pub mod history;
pub mod laws;
pub mod policy;
pub mod protocol;
pub mod protocol_preference;

pub use connection::{ConnectionConfig, ConnectionState};
pub use history::{ServerAddr, SuccessRecord, TransportHistory};
pub use policy::OpportunisticEncryption;
pub use protocol::Protocol;
pub use protocol_preference::ProtocolPreference;
