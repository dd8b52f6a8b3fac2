//! Capabilities: unforgeable kernel records of a process's rights on a target.

use vstd::prelude::*;

verus! {

/// A right held by `owner_pid` on the object named `target_id`.
#[derive(Clone, Copy, Debug)]
pub struct Capability {
    pub id: u32,
    pub owner_pid: u32,
    pub target_id: u32,
    pub rights: u32,
    pub revoked: bool,
}

impl Capability {
    /// The capability is usable for `right`: not revoked, and sharing a bit with it.
    pub open spec fn grants(self, right: u32) -> bool {
        !self.revoked && self.rights & right != 0
    }

    /// The same capability, revoked.
    pub open spec fn revoked_form(self) -> Capability {
        Capability { revoked: true, ..self }
    }

    pub fn new(id: u32, owner_pid: u32, target_id: u32, rights: u32) -> (r: Self)
        ensures
            r == (Capability { id, owner_pid, target_id, rights, revoked: false }),
    {
        Capability { id, owner_pid, target_id, rights, revoked: false }
    }

    pub fn has_right(&self, right: u32) -> (r: bool)
        ensures
            r == self.grants(right),
    {
        !self.revoked && (self.rights & right) != 0
    }

    /// One-way: once revoked, the capability stays revoked.
    pub fn revoke(&mut self)
        ensures
            *final(self) == old(self).revoked_form(),
    {
        self.revoked = true;
    }
}

/// A revoked capability grants no right at all.
pub proof fn lemma_revoked_grants_nothing(c: Capability, right: u32)
    requires
        c.revoked,
    ensures
        !c.grants(right),
{
}

/// Revoking a capability a second time changes nothing.
pub proof fn lemma_revoke_idempotent(c: Capability)
    ensures
        c.revoked_form().revoked_form() == c.revoked_form(),
        c.revoked_form().revoked,
{
}

} // verus!
