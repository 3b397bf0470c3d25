//! The graceful-shutdown protocol: a two-phase state machine that hands the
//! subscription token out exactly once.

use vstd::prelude::*;

verus! {

/// Opaque token identifying the one active notification subscription.
/// Handed out at subscribe time; the bus takes it back to unsubscribe.
#[derive(Debug, Clone, Copy, PartialEq, Eq, Structural)]
pub struct SubscriptionToken {
    pub id: u64,
}

/// The two phases of the bridge's life: taking in notifications, or
/// winding down while the queued events are still delivered.
#[derive(Debug, Clone, Copy, PartialEq, Eq, Structural)]
pub enum Phase {
    Active,
    Draining,
}

/// The shutdown state machine. It owns the subscription token while the
/// bridge is active and surrenders it, exactly once, on the transition to
/// `Draining`.
pub struct ShutdownController {
    pub phase: Phase,
    pub subscription: Option<SubscriptionToken>,
}

impl ShutdownController {
    /// Well-formedness: the token is held exactly while the bridge is
    /// active.
    pub open spec fn wf(self) -> bool {
        self.phase == Phase::Active <==> self.subscription is Some
    }

    /// A controller for a freshly subscribed bridge.
    pub fn new(token: SubscriptionToken) -> (r: ShutdownController)
        ensures
            r.wf(),
            r.phase == Phase::Active,
            r.subscription == Some(token),
    {
        ShutdownController { phase: Phase::Active, subscription: Some(token) }
    }

    /// Whether the bridge is still taking in notifications.
    pub fn is_active(&self) -> (r: bool)
        ensures
            r == (self.phase == Phase::Active),
    {
        match self.phase {
            Phase::Active => true,
            Phase::Draining => false,
        }
    }

    /// The `Active` → `Draining` transition. Returns the subscription token
    /// so the caller can unsubscribe: `Some` exactly on the first trigger,
    /// `None` on any later one — the token is consumed exactly once.
    pub fn trigger(&mut self) -> (r: Option<SubscriptionToken>)
        requires
            old(self).wf(),
        ensures
            final(self).wf(),
            final(self).phase == Phase::Draining,
            final(self).subscription is None,
            r == old(self).subscription,
            r is Some <==> old(self).phase == Phase::Active,
    {
        let token = self.subscription;
        self.phase = Phase::Draining;
        self.subscription = None;
        token
    }
}

} // verus!
