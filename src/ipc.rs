//! Port-based message passing and the capability operations.

use vstd::prelude::*;

use crate::capability::Capability;
use crate::error::{
    E_CAP_INVALID, E_INVAL, E_NOMEM, E_NO_RIGHTS, E_OK, E_PORT_FULL, E_PORT_INVALID,
    E_PROCESS_NOT_FOUND, CAP_DESTROY, CAP_RECEIVE, CAP_SEND,
};
use crate::globals::{
    find_cap, find_port, lemma_cap_index, process_exists, KernelState,
    KernelView,
};
use crate::port::{Message, Port, PortView};

verus! {

/// Rights of the capability minted with a new port.
pub const PORT_OWNER_RIGHTS: u32 = CAP_SEND | CAP_RECEIVE | CAP_DESTROY;

/// Words in a message, and the count a successful receive reports.
pub const MESSAGE_LEN: usize = 8;

/// The largest value an identifier counter can hold; it is never handed out.
pub const ID_LIMIT: u32 = 0xFFFF_FFFF;

impl KernelView {
    /// A new port owned by the caller, paired with a capability that grants
    /// the caller send, receive and destroy on it; the port's identifier is
    /// returned. Without a fresh identifier of either kind nothing changes.
    pub open spec fn allocate_port(self) -> (u64, KernelView) {
        if self.next_port_id == ID_LIMIT || self.next_cap_id == ID_LIMIT {
            (E_NOMEM, self)
        } else {
            let port = PortView {
                id: self.next_port_id,
                owner_pid: self.current_pid,
                head: 0,
                tail: 0,
                messages: Seq::empty(),
            };
            let cap = Capability {
                id: self.next_cap_id,
                owner_pid: self.current_pid,
                target_id: self.next_port_id,
                rights: PORT_OWNER_RIGHTS,
                revoked: false,
            };
            (
                self.next_port_id as u64,
                KernelView {
                    ports: self.ports.push(port),
                    capabilities: self.capabilities.push(cap),
                    next_port_id: (self.next_port_id + 1) as u32,
                    next_cap_id: (self.next_cap_id + 1) as u32,
                    ..self
                },
            )
        }
    }

    /// Sending: the length is checked first, then that the port exists,
    /// that the caller may send to it, and that its ring has room.
    pub open spec fn send(self, port_id: u32, msg: Seq<u64>, len: usize) -> (u64, KernelView) {
        if len != MESSAGE_LEN {
            (E_INVAL, self)
        } else if !self.has_port(port_id) {
            (E_PORT_INVALID, self)
        } else if !self.holds_right(self.current_pid, port_id, CAP_SEND) {
            (E_NO_RIGHTS, self)
        } else if self.ports[self.port_index(port_id)].is_full() {
            (E_PORT_FULL, self)
        } else {
            let i = self.port_index(port_id);
            (E_OK, KernelView { ports: self.ports.update(i, self.ports[i].enqueue(msg)), ..self })
        }
    }

    /// Receiving: the length is checked first, then that the port exists
    /// and that the caller may receive from it. An empty ring reports
    /// `E_PORT_INVALID`; otherwise the oldest message is taken and the word
    /// count is returned.
    pub open spec fn receive(self, port_id: u32, len: usize) -> (u64, Option<Seq<u64>>, KernelView) {
        if len != MESSAGE_LEN {
            (E_INVAL, None, self)
        } else if !self.has_port(port_id) {
            (E_PORT_INVALID, None, self)
        } else if !self.holds_right(self.current_pid, port_id, CAP_RECEIVE) {
            (E_NO_RIGHTS, None, self)
        } else if self.ports[self.port_index(port_id)].is_empty() {
            (E_PORT_INVALID, None, self)
        } else {
            let i = self.port_index(port_id);
            let (m, rest) = self.ports[i].dequeue();
            (MESSAGE_LEN as u64, m, KernelView { ports: self.ports.update(i, rest), ..self })
        }
    }

    /// Deriving: a new capability for `dst_pid` on the same target, with
    /// `rights`, which must be a subset of the source's rights. The source
    /// must exist, belong to the caller and not be revoked; it is left as is.
    pub open spec fn derive(self, src_cap_id: u32, dst_pid: u32, rights: u32) -> (u64, KernelView) {
        if !self.has_cap(src_cap_id) {
            (E_CAP_INVALID, self)
        } else {
            let src = self.capabilities[self.cap_index(src_cap_id)];
            if src.owner_pid != self.current_pid {
                (E_NO_RIGHTS, self)
            } else if src.revoked {
                (E_CAP_INVALID, self)
            } else if rights & src.rights != rights {
                (E_NO_RIGHTS, self)
            } else if !self.has_process(dst_pid) {
                (E_PROCESS_NOT_FOUND, self)
            } else if self.next_cap_id == ID_LIMIT {
                (E_NOMEM, self)
            } else {
                let cap = Capability {
                    id: self.next_cap_id,
                    owner_pid: dst_pid,
                    target_id: src.target_id,
                    rights,
                    revoked: false,
                };
                (
                    E_OK,
                    KernelView {
                        capabilities: self.capabilities.push(cap),
                        next_cap_id: (self.next_cap_id + 1) as u32,
                        ..self
                    },
                )
            }
        }
    }

    /// Revoking: the capability must exist and belong to the caller; it is
    /// then marked revoked.
    pub open spec fn revoke(self, cap_id: u32) -> (u64, KernelView) {
        if !self.has_cap(cap_id) {
            (E_CAP_INVALID, self)
        } else {
            let i = self.cap_index(cap_id);
            if self.capabilities[i].owner_pid != self.current_pid {
                (E_NO_RIGHTS, self)
            } else {
                (
                    E_OK,
                    KernelView {
                        capabilities: self.capabilities.update(
                            i,
                            self.capabilities[i].revoked_form(),
                        ),
                        ..self
                    },
                )
            }
        }
    }
}

/// Allocates a port for the current process together with its owner
/// capability, and returns the port's identifier.
pub fn port_allocate(state: &mut KernelState) -> (r: u64)
    requires
        old(state).wf(),
    ensures
        final(state).wf(),
        (r, final(state)@) == old(state)@.allocate_port(),
{
    if state.next_port_id == ID_LIMIT || state.next_cap_id == ID_LIMIT {
        return E_NOMEM;
    }
    let ghost before = state@;
    let port_id = state.next_port_id;
    state.next_port_id = port_id + 1;
    let current_pid = state.current_process_id;
    let port = Port::new(port_id, current_pid);
    state.ports.push(port);
    let cap_id = state.next_cap_id;
    let capability = Capability::new(cap_id, current_pid, port_id, PORT_OWNER_RIGHTS);
    state.next_cap_id = cap_id + 1;
    state.capabilities.push(capability);
    assert(state@.ports =~= before.ports.push(port@));
    assert(state@.wf()) by {
        assert(forall|i: int|
            0 <= i < before.ports.len() ==> #[trigger] state@.ports[i] == before.ports[i]);
        assert(forall|i: int|
            0 <= i < before.capabilities.len() ==> #[trigger] state@.capabilities[i]
                == before.capabilities[i]);
    }
    port_id as u64
}

/// Sends the eight words of `msg` to the port named `port_id`.
pub fn port_send(state: &mut KernelState, port_id: u32, msg: &Message, len: usize) -> (r: u64)
    requires
        old(state).wf(),
    ensures
        final(state).wf(),
        (r, final(state)@) == old(state)@.send(port_id, msg@, len),
{
    if len != MESSAGE_LEN {
        return E_INVAL;
    }
    let current_pid = state.current_process_id;
    let idx = match find_port(state, port_id) {
        Some(i) => i,
        None => return E_PORT_INVALID,
    };
    if !has_capability(current_pid, port_id, CAP_SEND, state) {
        return E_NO_RIGHTS;
    }
    if state.ports[idx].is_full() {
        return E_PORT_FULL;
    }
    let ghost before = state@;
    let pushed = state.ports[idx].push_message(msg);
    assert(state@.ports =~= before.ports.update(idx as int, before.ports[idx as int].enqueue(msg@)));
    if pushed {
        E_OK
    } else {
        E_PORT_FULL
    }
}

/// Takes the oldest message of the port named `port_id` into `buf`, and
/// returns the word count; on any other outcome `buf` is left as is.
pub fn port_receive(state: &mut KernelState, port_id: u32, buf: &mut Message, len: usize) -> (r: u64)
    requires
        old(state).wf(),
    ensures
        final(state).wf(),
        r == old(state)@.receive(port_id, len).0,
        final(state)@ == old(state)@.receive(port_id, len).2,
        match old(state)@.receive(port_id, len).1 {
            Some(m) => final(buf)@ == m,
            None => *final(buf) == *old(buf),
        },
{
    if len != MESSAGE_LEN {
        return E_INVAL;
    }
    let current_pid = state.current_process_id;
    let idx = match find_port(state, port_id) {
        Some(i) => i,
        None => return E_PORT_INVALID,
    };
    if !has_capability(current_pid, port_id, CAP_RECEIVE, state) {
        return E_NO_RIGHTS;
    }
    let ghost before = state@;
    match state.ports[idx].pop_message() {
        Some(msg) => {
            assert(state@.ports =~= before.ports.update(idx as int, before.ports[idx as int].dequeue().1));
            *buf = msg;
            MESSAGE_LEN as u64
        },
        None => {
            assert(state@.ports =~= before.ports);
            E_PORT_INVALID
        },
    }
}

/// Derives a capability for `dst_pid` from the caller's capability
/// `src_cap_id`, with `rights` drawn from the source's rights. The source
/// is not changed.
pub fn cap_move(state: &mut KernelState, src_cap_id: u32, dst_pid: u32, rights: u32) -> (r: u64)
    requires
        old(state).wf(),
    ensures
        final(state).wf(),
        (r, final(state)@) == old(state)@.derive(src_cap_id, dst_pid, rights),
{
    let current_pid = state.current_process_id;
    let idx = match find_cap(state, src_cap_id) {
        Some(i) => i,
        None => return E_CAP_INVALID,
    };
    let src_cap = state.capabilities[idx];
    if src_cap.owner_pid != current_pid {
        return E_NO_RIGHTS;
    }
    if src_cap.revoked {
        return E_CAP_INVALID;
    }
    if (rights & src_cap.rights) != rights {
        return E_NO_RIGHTS;
    }
    if !process_exists(state, dst_pid) {
        return E_PROCESS_NOT_FOUND;
    }
    if state.next_cap_id == ID_LIMIT {
        return E_NOMEM;
    }
    let cap_id = state.next_cap_id;
    state.next_cap_id = cap_id + 1;
    let new_cap = Capability::new(cap_id, dst_pid, src_cap.target_id, rights);
    state.capabilities.push(new_cap);
    E_OK
}

/// Revokes the caller's capability `cap_id`; revoking it again succeeds too.
pub fn cap_revoke(state: &mut KernelState, cap_id: u32) -> (r: u64)
    requires
        old(state).wf(),
    ensures
        final(state).wf(),
        (r, final(state)@) == old(state)@.revoke(cap_id),
{
    let current_pid = state.current_process_id;
    let idx = match find_cap(state, cap_id) {
        Some(i) => i,
        None => return E_CAP_INVALID,
    };
    if state.capabilities[idx].owner_pid != current_pid {
        return E_NO_RIGHTS;
    }
    state.capabilities[idx].revoke();
    E_OK
}

/// Whether `pid` holds some capability on `target_id` that grants `required_right`.
pub fn has_capability(pid: u32, target_id: u32, required_right: u32, state: &KernelState) -> (r: bool)
    ensures
        r == state@.holds_right(pid, target_id, required_right),
{
    let mut i: usize = 0;
    while i < state.capabilities.len()
        invariant
            0 <= i <= state.capabilities@.len(),
            forall|j: int|
                0 <= j < i ==> !(#[trigger] state@.capabilities[j].owner_pid == pid
                    && state@.capabilities[j].target_id == target_id
                    && state@.capabilities[j].grants(required_right)),
        decreases state.capabilities@.len() - i,
    {
        let c = state.capabilities[i];
        if c.owner_pid == pid && c.target_id == target_id && !c.revoked && (c.rights & required_right) != 0 {
            assert(state@.capabilities[i as int].owner_pid == pid);
            return true;
        }
        i = i + 1;
    }
    false
}

/// Derivation never widens rights: a derived capability names the source's
/// target, belongs to the destination, and holds only rights the source
/// holds.
pub proof fn lemma_derive_subset(v: KernelView, src_cap_id: u32, dst_pid: u32, rights: u32)
    requires
        v.wf(),
    ensures
        v.derive(src_cap_id, dst_pid, rights).0 == E_OK ==> {
            let parent = v.capabilities[v.cap_index(src_cap_id)];
            let child = v.derive(src_cap_id, dst_pid, rights).1.capabilities.last();
            &&& child.rights & parent.rights == child.rights
            &&& child.rights == rights
            &&& child.target_id == parent.target_id
            &&& child.owner_pid == dst_pid
            &&& !child.revoked
        },
{
}

/// Revoking twice: the second call also succeeds and changes nothing, and
/// the capability stays revoked.
pub proof fn lemma_revoke_twice(v: KernelView, cap_id: u32)
    requires
        v.wf(),
    ensures
        v.revoke(cap_id).0 == E_OK ==> {
            let once = v.revoke(cap_id).1;
            &&& once.capabilities[once.cap_index(cap_id)].revoked
            &&& once.revoke(cap_id) == (E_OK, once)
        },
{
    if v.revoke(cap_id).0 == E_OK {
        let i = v.cap_index(cap_id);
        let once = v.revoke(cap_id).1;
        assert(once.wf()) by {
            assert(forall|j: int|
                0 <= j < once.capabilities.len() ==> #[trigger] once.capabilities[j].id
                    == v.capabilities[j].id);
        }
        lemma_cap_index(once, i);
        assert(once.capabilities.update(i, once.capabilities[i].revoked_form())
            =~= once.capabilities);
    }
}

} // verus!
