//! The kernel object store: processes, ports and capabilities, with the
//! counters that name them.

use vstd::prelude::*;

use crate::capability::Capability;
use crate::port::{lemma_port_invariant, Port, PortView};

verus! {

/// Lifecycle of a process; `Dead` is terminal.
#[derive(Clone, Copy, Debug, PartialEq, Eq, Structural)]
pub enum ProcessState {
    Ready,
    Running,
    Sleeping,
    Dead,
}

/// The kernel's record of a user task.
#[derive(Clone, Copy, Debug)]
pub struct ProcessDescriptor {
    pub id: u32,
    pub name: [u8; 32],
    pub memory_start: u64,
    pub memory_end: u64,
    pub page_table_root: u64,
    pub state: ProcessState,
    pub stack_pointer: u64,
    pub instruction_pointer: u64,
}

/// The first pid handed out; pid 1 is reserved for the init server.
pub const FIRST_PID: u32 = 2;

/// The three tables, the current process, and the next identifier of each
/// kind. User space holds identifiers only, never references.
pub struct KernelState {
    pub processes: Vec<ProcessDescriptor>,
    pub ports: Vec<Port>,
    pub capabilities: Vec<Capability>,
    pub current_process_id: u32,
    pub next_process_id: u32,
    pub next_port_id: u32,
    pub next_cap_id: u32,
}

/// Abstract state of the object store.
pub struct KernelView {
    pub processes: Seq<ProcessDescriptor>,
    pub ports: Seq<PortView>,
    pub capabilities: Seq<Capability>,
    pub current_pid: u32,
    pub next_pid: u32,
    pub next_port_id: u32,
    pub next_cap_id: u32,
}

impl View for KernelState {
    type V = KernelView;

    open spec fn view(&self) -> KernelView {
        KernelView {
            processes: self.processes@,
            ports: self.ports@.map_values(|p: Port| p@),
            capabilities: self.capabilities@,
            current_pid: self.current_process_id,
            next_pid: self.next_process_id,
            next_port_id: self.next_port_id,
            next_cap_id: self.next_cap_id,
        }
    }
}

impl KernelView {
    /// Identifiers of each kind increase along their table and stay below
    /// the counter that will name the next object; every port's ring is in
    /// bounds.
    pub open spec fn wf(self) -> bool {
        &&& FIRST_PID <= self.next_pid
        &&& 1 <= self.next_port_id
        &&& 1 <= self.next_cap_id
        &&& forall|i: int, j: int|
            0 <= i < j < self.processes.len() ==> self.processes[i].id < self.processes[j].id
        &&& forall|i: int| 0 <= i < self.processes.len() ==> #[trigger] self.processes[i].id < self.next_pid
        &&& forall|i: int, j: int|
            0 <= i < j < self.ports.len() ==> self.ports[i].id < self.ports[j].id
        &&& forall|i: int|
            0 <= i < self.ports.len() ==> #[trigger] self.ports[i].id < self.next_port_id
        &&& forall|i: int| 0 <= i < self.ports.len() ==> (#[trigger] self.ports[i]).wf()
        &&& forall|i: int, j: int|
            0 <= i < j < self.capabilities.len() ==> self.capabilities[i].id
                < self.capabilities[j].id
        &&& forall|i: int|
            0 <= i < self.capabilities.len() ==> #[trigger] self.capabilities[i].id
                < self.next_cap_id
    }

    pub open spec fn has_process(self, pid: u32) -> bool {
        exists|i: int| 0 <= i < self.processes.len() && #[trigger] self.processes[i].id == pid
    }

    pub open spec fn has_port(self, id: u32) -> bool {
        exists|i: int| 0 <= i < self.ports.len() && #[trigger] self.ports[i].id == id
    }

    /// Where the port named `id` stands in its table.
    pub open spec fn port_index(self, id: u32) -> int {
        choose|i: int| 0 <= i < self.ports.len() && #[trigger] self.ports[i].id == id
    }

    pub open spec fn has_cap(self, id: u32) -> bool {
        exists|i: int|
            0 <= i < self.capabilities.len() && #[trigger] self.capabilities[i].id == id
    }

    /// Where the capability named `id` stands in its table.
    pub open spec fn cap_index(self, id: u32) -> int {
        choose|i: int|
            0 <= i < self.capabilities.len() && #[trigger] self.capabilities[i].id == id
    }

    /// Some capability held by `pid` on `target` grants `right`.
    pub open spec fn holds_right(self, pid: u32, target: u32, right: u32) -> bool {
        exists|i: int|
            0 <= i < self.capabilities.len() && #[trigger] self.capabilities[i].owner_pid == pid
                && self.capabilities[i].target_id == target && self.capabilities[i].grants(
                right,
            )
    }
}

/// The position found for an identifier in a table whose identifiers
/// increase is the one `choose` picks.
pub proof fn lemma_port_index(v: KernelView, i: int)
    requires
        v.wf(),
        0 <= i < v.ports.len(),
    ensures
        v.has_port(v.ports[i].id),
        v.port_index(v.ports[i].id) == i,
{
    let id = v.ports[i].id;
    assert(v.has_port(id));
    let j = v.port_index(id);
    if j < i {
        assert(v.ports[j].id < v.ports[i].id);
    } else if i < j {
        assert(v.ports[i].id < v.ports[j].id);
    }
}

pub proof fn lemma_cap_index(v: KernelView, i: int)
    requires
        v.wf(),
        0 <= i < v.capabilities.len(),
    ensures
        v.has_cap(v.capabilities[i].id),
        v.cap_index(v.capabilities[i].id) == i,
{
    let id = v.capabilities[i].id;
    assert(v.has_cap(id));
    let j = v.cap_index(id);
    if j < i {
        assert(v.capabilities[j].id < v.capabilities[i].id);
    } else if i < j {
        assert(v.capabilities[i].id < v.capabilities[j].id);
    }
}

impl KernelState {
    /// The concrete rings are sound and the abstract state is well formed.
    pub open spec fn wf(&self) -> bool {
        &&& forall|i: int| 0 <= i < self.ports@.len() ==> (#[trigger] self.ports@[i]).wf()
        &&& self@.wf()
    }

    /// Empty tables; pids start at 2, port and capability identifiers at 1.
    pub fn new() -> (r: Self)
        ensures
            r.wf(),
            r@ == (KernelView {
                processes: Seq::empty(),
                ports: Seq::empty(),
                capabilities: Seq::empty(),
                current_pid: 0,
                next_pid: FIRST_PID,
                next_port_id: 1,
                next_cap_id: 1,
            }),
    {
        let r = KernelState {
            processes: Vec::new(),
            ports: Vec::new(),
            capabilities: Vec::new(),
            current_process_id: 0,
            next_process_id: FIRST_PID,
            next_port_id: 1,
            next_cap_id: 1,
        };
        assert(r@.ports =~= Seq::empty());
        r
    }
}

/// The pid of the process on whose behalf the kernel is running.
pub fn current_pid(state: &KernelState) -> (r: u32)
    ensures
        r == state@.current_pid,
{
    state.current_process_id
}

/// Where the port named `id` stands in the port table, if anywhere.
pub fn find_port(state: &KernelState, id: u32) -> (r: Option<usize>)
    requires
        state.wf(),
    ensures
        match r {
            Some(i) => state@.has_port(id) && i as int == state@.port_index(id) && i
                < state.ports@.len(),
            None => !state@.has_port(id),
        },
{
    let mut i: usize = 0;
    while i < state.ports.len()
        invariant
            state.wf(),
            0 <= i <= state.ports@.len(),
            forall|j: int| 0 <= j < i ==> #[trigger] state@.ports[j].id != id,
        decreases state.ports@.len() - i,
    {
        if state.ports[i].id == id {
            proof {
                lemma_port_index(state@, i as int);
            }
            return Some(i);
        }
        i = i + 1;
    }
    None
}

/// Where the capability named `id` stands in the capability table, if anywhere.
pub fn find_cap(state: &KernelState, id: u32) -> (r: Option<usize>)
    requires
        state.wf(),
    ensures
        match r {
            Some(i) => state@.has_cap(id) && i as int == state@.cap_index(id) && i
                < state.capabilities@.len(),
            None => !state@.has_cap(id),
        },
{
    let mut i: usize = 0;
    while i < state.capabilities.len()
        invariant
            state.wf(),
            0 <= i <= state.capabilities@.len(),
            forall|j: int| 0 <= j < i ==> #[trigger] state@.capabilities[j].id != id,
        decreases state.capabilities@.len() - i,
    {
        if state.capabilities[i].id == id {
            proof {
                lemma_cap_index(state@, i as int);
            }
            return Some(i);
        }
        i = i + 1;
    }
    None
}

/// Whether a process named `pid` exists.
pub fn process_exists(state: &KernelState, pid: u32) -> (r: bool)
    ensures
        r == state@.has_process(pid),
{
    let mut i: usize = 0;
    while i < state.processes.len()
        invariant
            0 <= i <= state.processes@.len(),
            forall|j: int| 0 <= j < i ==> #[trigger] state@.processes[j].id != pid,
        decreases state.processes@.len() - i,
    {
        if state.processes[i].id == pid {
            assert(state@.processes[i as int].id == pid);
            return true;
        }
        i = i + 1;
    }
    false
}

/// In a well-formed store every port's ring is within bounds: size at most
/// 64, cursors below 64, empty exactly at size 0 and full exactly at size 64.
pub proof fn lemma_store_ports_in_bounds(state: &KernelState, i: int)
    requires
        state.wf(),
        0 <= i < state.ports@.len(),
    ensures
        state.ports@[i].queue_size <= 64,
        state.ports@[i].queue_head < 64,
        state.ports@[i].queue_tail < 64,
        (state.ports@[i].queue_size == 0) == state@.ports[i].is_empty(),
        (state.ports@[i].queue_size == 64) == state@.ports[i].is_full(),
{
    lemma_port_invariant(state.ports@[i]);
}

} // verus!
