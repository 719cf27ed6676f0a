//! The panel instance manager: the attach/detach/reuse lifecycle of the single
//! long-lived panel resource.
//!
//! The native panel is created lazily on the first attach and is not destroyed
//! on detach: it is parked (reparented into an invisible holding window, where
//! the platform requires an owner) and reused by the next attach when the
//! platform can reparent it into the new host window. Where reparenting is not
//! supported or fails, the manager falls back to constructing a fresh
//! instance. Each instance carries an identity drawn from a counter, and the
//! manager counts how many times the `init` callback has been owed — exactly
//! once per construction, never on reuse.
//!
//! The manager records decisions only; performing the platform work
//! (constructing the panel, reparenting it) is the caller's part, and the
//! caller reports which of the two paths was taken by calling
//! [`PanelManager::attach_reuse`] or [`PanelManager::attach_fresh`].

use vstd::prelude::*;

verus! {

/// Lifecycle bookkeeping for the single panel instance.
#[derive(Debug, Clone, Copy, PartialEq, Eq, Structural)]
pub struct PanelManager {
    /// True while the panel is placed inside a live host window.
    pub attached: bool,
    /// Identity of the live panel instance, if one was ever constructed.
    /// Detach keeps the instance; only disposal clears it.
    pub instance: Option<u64>,
    /// The identity the next constructed instance will receive.
    pub next_id: u64,
    /// How many times a panel instance has been constructed, which is exactly
    /// how many times the `init` callback is owed to user logic.
    pub init_count: u64,
}

/// Internal consistency: every identity ever handed out is below the counter,
/// and there are no more constructions than identities.
pub open spec fn manager_wf(m: PanelManager) -> bool {
    &&& (m.instance matches Some(id) ==> id < m.next_id)
    &&& m.init_count <= m.next_id
}

/// Detach parks the instance: the panel leaves the host window but is kept,
/// with its identity, for a later attach.
pub open spec fn spec_detach(m: PanelManager) -> PanelManager {
    PanelManager { attached: false, ..m }
}

/// An attach that reparented the existing instance into the new host window:
/// the instance and its identity are reused and no construction happens.
pub open spec fn spec_attach_reuse(m: PanelManager) -> PanelManager {
    PanelManager { attached: true, ..m }
}

/// An attach that constructed a fresh instance, either because none existed
/// yet or because reparenting is unsupported or failed: the new instance gets
/// a fresh identity and one more `init` is owed.
pub open spec fn spec_attach_fresh(m: PanelManager) -> PanelManager {
    PanelManager {
        attached: true,
        instance: Some(m.next_id),
        next_id: (m.next_id + 1) as u64,
        init_count: (m.init_count + 1) as u64,
    }
}

impl PanelManager {
    /// A manager with no instance yet: the first attach must construct.
    pub fn new() -> (m: PanelManager)
        ensures
            m == (PanelManager { attached: false, instance: None::<u64>, next_id: 0, init_count: 0 }),
            manager_wf(m),
    {
        PanelManager { attached: false, instance: None, next_id: 0, init_count: 0 }
    }

    /// Whether an attach may try to reuse the parked instance by reparenting
    /// it, instead of constructing a fresh one.
    pub fn can_reuse(&self) -> (r: bool)
        ensures
            r == self.instance is Some,
    {
        self.instance.is_some()
    }

    /// Record an attach that reused the parked instance: reparenting into the
    /// new host window succeeded, so the identity is kept and `init` is not
    /// owed again.
    pub fn attach_reuse(&mut self)
        requires
            !old(self).attached,
            old(self).instance is Some,
        ensures
            *final(self) == spec_attach_reuse(*old(self)),
            manager_wf(*old(self)) ==> manager_wf(*final(self)),
    {
        self.attached = true;
    }

    /// Record an attach that constructed a fresh panel instance, because none
    /// existed or because reparenting was unsupported or failed: the instance
    /// gets a fresh identity and `init` is owed exactly once more.
    pub fn attach_fresh(&mut self)
        requires
            !old(self).attached,
            old(self).next_id < u64::MAX,
            old(self).init_count < u64::MAX,
        ensures
            *final(self) == spec_attach_fresh(*old(self)),
            manager_wf(*old(self)) ==> manager_wf(*final(self)),
    {
        self.instance = Some(self.next_id);
        self.next_id = self.next_id + 1;
        self.init_count = self.init_count + 1;
        self.attached = true;
    }

    /// Record a detach: the panel leaves the host window but the instance is
    /// parked, not destroyed.
    pub fn detach(&mut self)
        requires
            old(self).attached,
        ensures
            *final(self) == spec_detach(*old(self)),
            manager_wf(*old(self)) ==> manager_wf(*final(self)),
    {
        self.attached = false;
    }

    /// Record disposal of the owning editor object: the instance itself is
    /// destroyed, which happens only on teardown, never on detach.
    pub fn dispose(&mut self)
        ensures
            *final(self) == (PanelManager { attached: false, instance: None::<u64>, ..*old(self) }),
            manager_wf(*old(self)) ==> manager_wf(*final(self)),
    {
        self.attached = false;
        self.instance = None;
    }
}

/// Detach followed by a reattach that reparents the parked instance reuses the
/// very same instance — same identity — and owes no further `init` call.
pub proof fn lemma_reattach_reuses_instance(m: PanelManager)
    requires
        m.attached,
        m.instance is Some,
    ensures
        ({
            let m2 = spec_attach_reuse(spec_detach(m));
            &&& m2.attached
            &&& m2.instance == m.instance
            &&& m2.init_count == m.init_count
        }),
{
}

/// Detach followed by a reattach that had to construct — the platform cannot
/// reparent, or reparenting failed — owes `init` exactly once more, and the
/// fresh instance is a different one from the parked instance.
pub proof fn lemma_reattach_fresh_instance(m: PanelManager)
    requires
        m.attached,
        manager_wf(m),
        m.init_count < u64::MAX,
        m.next_id < u64::MAX,
    ensures
        ({
            let m2 = spec_attach_fresh(spec_detach(m));
            &&& m2.attached
            &&& m2.init_count == m.init_count + 1
            &&& m2.instance is Some
            &&& m2.instance != m.instance
        }),
{
}

} // verus!
