//! The opportunistic-encryption policy.

use vstd::prelude::*;

verus! {

/// Tunables of the opportunistic-encryption policy.
///
/// When the policy is enabled the selectors prefer encrypted transports that
/// have recently proven reachable, without requiring them unconditionally.
/// `validity_window` bounds, in the same clock units the caller uses for
/// success timestamps, how old a recorded success may be and still count as
/// recent.
#[derive(Clone, Copy, Debug, PartialEq, Eq, Structural)]
pub struct OpportunisticEncryption {
    pub enabled: bool,
    pub validity_window: u64,
}

impl OpportunisticEncryption {
    /// A policy that prefers recently reachable encrypted transports, with
    /// the given validity window for recorded successes.
    pub fn enabled(validity_window: u64) -> (policy: Self)
        ensures
            policy.enabled,
            policy.validity_window == validity_window,
    {
        OpportunisticEncryption { enabled: true, validity_window }
    }

    /// A policy under which encryption is neither preferred nor upgraded to.
    pub fn disabled() -> (policy: Self)
        ensures
            !policy.enabled,
    {
        OpportunisticEncryption { enabled: false, validity_window: 0 }
    }

    /// Whether the resolver should prefer encrypted transports when they are
    /// available but unconfirmed.
    pub fn is_enabled(&self) -> (enabled: bool)
        ensures
            enabled == self.enabled,
    {
        self.enabled
    }
}

impl Default for OpportunisticEncryption {
    /// The policy defaults to disabled.
    fn default() -> (policy: Self)
        ensures
            !policy.enabled,
            policy.validity_window == 0,
    {
        OpportunisticEncryption { enabled: false, validity_window: 0 }
    }
}

} // verus!
