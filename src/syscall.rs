//! The single system call entry point: `(number, six argument words)` to
//! one 64-bit result, either a success value or an error code.

use vstd::prelude::*;

use crate::error::{
    E_ALIGN, E_INVAL, E_INVALID_SYSCALL, E_NOMEM, E_OK, E_PROCESS_NOT_FOUND, SYS_CAP_MOVE,
    SYS_PORT_ALLOCATE, SYS_PORT_RECEIVE, SYS_PORT_SEND, SYS_SCHED_SPAWN, SYS_SCHED_SWITCH,
    SYS_SCHED_YIELD, SYS_TIME, SYS_VM_ALLOCATE, SYS_VM_DEALLOCATE,
};
use crate::globals::{process_exists, KernelState, KernelView, ProcessDescriptor, ProcessState};
use crate::ipc::{cap_move, port_allocate, port_receive, port_send, ID_LIMIT, MESSAGE_LEN};
use crate::port::Message;
use vstd::array::spec_array_fill_for_copy_type;

verus! {

/// First address above user space.
pub const USER_TOP: u64 = 0x8000_0000_0000;

/// Lowest user address.
pub const USER_BASE: u64 = 0x1000;

/// Largest size one VM allocation may ask for (1 GiB).
pub const VM_MAX_SIZE: u64 = 0x4000_0000;

/// Low bits that must be clear in a 4 KiB aligned address.
pub const PAGE_MASK: u64 = 0xFFF;

/// The count TIME reports: the core keeps no clock of its own, and this
/// value never decreases.
pub const TIME_COUNT: u64 = 0x1000;

/// The outcome of VM_ALLOCATE: sizes of zero or above 1 GiB are invalid, an
/// unaligned hint is refused, and otherwise the address one page above the
/// hint is handed out while it stays below the user-space ceiling.
pub open spec fn vm_allocate_result(hint: u64, size: u64) -> u64 {
    if size == 0 || size > VM_MAX_SIZE {
        E_INVAL
    } else if hint & PAGE_MASK != 0 {
        E_ALIGN
    } else if hint + USER_BASE < USER_TOP {
        (hint + USER_BASE) as u64
    } else {
        E_NOMEM
    }
}

/// The outcome of VM_DEALLOCATE: a zero size is invalid and the address
/// must be aligned.
pub open spec fn vm_deallocate_result(addr: u64, size: u64) -> u64 {
    if size == 0 {
        E_INVAL
    } else if addr & PAGE_MASK != 0 {
        E_ALIGN
    } else {
        E_OK
    }
}

/// The descriptor of a freshly spawned process: ready, spanning user
/// space, with the given registers and an all-zero name.
pub open spec fn spawned_process(pid: u32, entry: u64, stack: u64) -> ProcessDescriptor {
    ProcessDescriptor {
        id: pid,
        name: spec_array_fill_for_copy_type::<u8, 32>(0u8),
        memory_start: USER_BASE,
        memory_end: USER_TOP,
        page_table_root: 0,
        state: ProcessState::Ready,
        stack_pointer: stack,
        instruction_pointer: entry,
    }
}

impl KernelView {
    /// Spawning: entry and stack must be non-null user addresses; the new
    /// process takes the next pid, which is returned.
    pub open spec fn spawn(self, entry: u64, stack: u64) -> (u64, KernelView) {
        if entry == 0 || stack == 0 {
            (E_INVAL, self)
        } else if entry >= USER_TOP || stack >= USER_TOP {
            (E_INVAL, self)
        } else if self.next_pid == ID_LIMIT {
            (E_NOMEM, self)
        } else {
            (
                self.next_pid as u64,
                KernelView {
                    processes: self.processes.push(spawned_process(self.next_pid, entry, stack)),
                    next_pid: (self.next_pid + 1) as u32,
                    ..self
                },
            )
        }
    }

    /// Switching: the target must exist; it becomes the current process.
    pub open spec fn switch_to(self, target_pid: u32) -> (u64, KernelView) {
        if !self.has_process(target_pid) {
            (E_PROCESS_NOT_FOUND, self)
        } else {
            (E_OK, KernelView { current_pid: target_pid, ..self })
        }
    }

    /// What one system call returns, the message it hands back to the
    /// caller (a receive only), and the state it leaves. `msg` holds the
    /// words a send takes from the caller.
    pub open spec fn dispatch(self, num: u64, args: [u64; 6], msg: Seq<u64>) -> (
        u64,
        Option<Seq<u64>>,
        KernelView,
    ) {
        if num == SYS_PORT_ALLOCATE {
            (self.allocate_port().0, None, self.allocate_port().1)
        } else if num == SYS_PORT_SEND {
            let (r, s) = self.send(args[0] as u32, msg, args[2] as usize);
            (r, None, s)
        } else if num == SYS_PORT_RECEIVE {
            self.receive(args[0] as u32, args[2] as usize)
        } else if num == SYS_VM_ALLOCATE {
            (vm_allocate_result(args[0], args[1]), None, self)
        } else if num == SYS_VM_DEALLOCATE {
            (vm_deallocate_result(args[0], args[1]), None, self)
        } else if num == SYS_CAP_MOVE {
            let (r, s) = self.derive(args[0] as u32, args[1] as u32, args[2] as u32);
            (r, None, s)
        } else if num == SYS_SCHED_SPAWN {
            let (r, s) = self.spawn(args[0], args[1]);
            (r, None, s)
        } else if num == SYS_SCHED_YIELD {
            (E_OK, None, self)
        } else if num == SYS_SCHED_SWITCH {
            let (r, s) = self.switch_to(args[0] as u32);
            (r, None, s)
        } else if num == SYS_TIME {
            (TIME_COUNT, None, self)
        } else {
            (E_INVALID_SYSCALL, None, self)
        }
    }
}

/// Decodes one system call and runs it. For PORT_SEND, `msg` must hold the
/// eight words found at the caller's message address; after a successful
/// PORT_RECEIVE it holds the words to copy to the caller's buffer, and
/// otherwise it is left as is.
pub fn handle_syscall(state: &mut KernelState, num: u64, args: [u64; 6], msg: &mut Message) -> (r: u64)
    requires
        old(state).wf(),
    ensures
        final(state).wf(),
        r == old(state)@.dispatch(num, args, old(msg)@).0,
        final(state)@ == old(state)@.dispatch(num, args, old(msg)@).2,
        match old(state)@.dispatch(num, args, old(msg)@).1 {
            Some(m) => final(msg)@ == m,
            None => *final(msg) == *old(msg),
        },
{
    match num {
        SYS_PORT_ALLOCATE => sys_port_allocate(state),
        SYS_PORT_SEND => sys_port_send(state, args[0] as u32, msg, args[2] as usize),
        SYS_PORT_RECEIVE => sys_port_receive(state, args[0] as u32, msg, args[2] as usize),
        SYS_VM_ALLOCATE => sys_vm_allocate(args[0], args[1], args[2] as u32),
        SYS_VM_DEALLOCATE => sys_vm_deallocate(args[0], args[1]),
        SYS_CAP_MOVE => sys_cap_move(state, args[0] as u32, args[1] as u32, args[2] as u32),
        SYS_SCHED_SPAWN => sys_sched_spawn(state, args[0], args[1]),
        SYS_SCHED_YIELD => sys_sched_yield(),
        SYS_SCHED_SWITCH => sys_sched_switch(state, args[0] as u32),
        SYS_TIME => sys_time(),
        _ => E_INVALID_SYSCALL,
    }
}

/// Where the kernel must read the message of a call before dispatching it:
/// the caller's message address, for a PORT_SEND of the right length only.
pub fn message_source(num: u64, args: &[u64; 6]) -> (r: Option<u64>)
    ensures
        r == (if num == SYS_PORT_SEND && args[2] as usize == MESSAGE_LEN {
            Some(args[1])
        } else {
            None
        }),
{
    if num == SYS_PORT_SEND && args[2] as usize == MESSAGE_LEN {
        Some(args[1])
    } else {
        None
    }
}

/// Where the kernel must write the message a call handed back: the
/// caller's buffer address, after a PORT_RECEIVE that returned the word count.
pub fn message_destination(num: u64, args: &[u64; 6], result: u64) -> (r: Option<u64>)
    ensures
        r == (if num == SYS_PORT_RECEIVE && result == MESSAGE_LEN as u64 {
            Some(args[1])
        } else {
            None
        }),
{
    if num == SYS_PORT_RECEIVE && result == MESSAGE_LEN as u64 {
        Some(args[1])
    } else {
        None
    }
}

fn sys_port_allocate(state: &mut KernelState) -> (r: u64)
    requires
        old(state).wf(),
    ensures
        final(state).wf(),
        (r, final(state)@) == old(state)@.allocate_port(),
{
    port_allocate(state)
}

fn sys_port_send(state: &mut KernelState, port_id: u32, msg: &Message, len: usize) -> (r: u64)
    requires
        old(state).wf(),
    ensures
        final(state).wf(),
        (r, final(state)@) == old(state)@.send(port_id, msg@, len),
{
    port_send(state, port_id, msg, len)
}

fn sys_port_receive(state: &mut KernelState, port_id: u32, buf: &mut Message, len: usize) -> (r: u64)
    requires
        old(state).wf(),
    ensures
        final(state).wf(),
        r == old(state)@.receive(port_id, len).0,
        final(state)@ == old(state)@.receive(port_id, len).2,
        match old(state)@.receive(port_id, len).1 {
            Some(m) => final(buf)@ == m,
            None => *final(buf) == *old(buf),
        },
{
    port_receive(state, port_id, buf, len)
}

/// Validates a user VM allocation; no physical mapping is made here.
fn sys_vm_allocate(hint: u64, size: u64, _flags: u32) -> (r: u64)
    ensures
        r == vm_allocate_result(hint, size),
{
    if size == 0 || size > VM_MAX_SIZE {
        return E_INVAL;
    }
    if (hint & PAGE_MASK) != 0 {
        return E_ALIGN;
    }
    if hint < USER_TOP - USER_BASE {
        hint + USER_BASE
    } else {
        E_NOMEM
    }
}

/// Validates a user VM release.
fn sys_vm_deallocate(addr: u64, size: u64) -> (r: u64)
    ensures
        r == vm_deallocate_result(addr, size),
{
    if size == 0 {
        return E_INVAL;
    }
    if (addr & PAGE_MASK) != 0 {
        return E_ALIGN;
    }
    E_OK
}

fn sys_cap_move(state: &mut KernelState, src_cap: u32, dst_pid: u32, rights: u32) -> (r: u64)
    requires
        old(state).wf(),
    ensures
        final(state).wf(),
        (r, final(state)@) == old(state)@.derive(src_cap, dst_pid, rights),
{
    cap_move(state, src_cap, dst_pid, rights)
}

/// Creates a ready process that will start at `entry` with stack `stack`.
fn sys_sched_spawn(state: &mut KernelState, entry: u64, stack: u64) -> (r: u64)
    requires
        old(state).wf(),
    ensures
        final(state).wf(),
        (r, final(state)@) == old(state)@.spawn(entry, stack),
{
    if entry == 0 || stack == 0 {
        return E_INVAL;
    }
    if entry >= USER_TOP || stack >= USER_TOP {
        return E_INVAL;
    }
    if state.next_process_id == ID_LIMIT {
        return E_NOMEM;
    }
    let ghost before = state@;
    let new_pid = state.next_process_id;
    state.next_process_id = new_pid + 1;
    let process = ProcessDescriptor {
        id: new_pid,
        name: [0u8; 32],
        memory_start: USER_BASE,
        memory_end: USER_TOP,
        page_table_root: 0,
        state: ProcessState::Ready,
        stack_pointer: stack,
        instruction_pointer: entry,
    };
    state.processes.push(process);
    assert(state@.ports =~= before.ports);
    assert(state@.wf()) by {
        assert(forall|i: int|
            0 <= i < before.processes.len() ==> #[trigger] state@.processes[i]
                == before.processes[i]);
    }
    new_pid as u64
}

/// Yielding is the scheduler server's business; the kernel only acknowledges it.
fn sys_sched_yield() -> (r: u64)
    ensures
        r == E_OK,
{
    E_OK
}

/// Makes `target_pid` the current process.
fn sys_sched_switch(state: &mut KernelState, target_pid: u32) -> (r: u64)
    requires
        old(state).wf(),
    ensures
        final(state).wf(),
        (r, final(state)@) == old(state)@.switch_to(target_pid),
{
    if !process_exists(state, target_pid) {
        return E_PROCESS_NOT_FOUND;
    }
    let ghost before = state@;
    state.current_process_id = target_pid;
    assert(state@ == KernelView { current_pid: target_pid, ..before });
    E_OK
}

/// Reads the monotonic time count.
fn sys_time() -> (r: u64)
    ensures
        r == TIME_COUNT,
{
    TIME_COUNT
}

/// From `v` to `s`, the tables keep the entries they had, each new entry's
/// identifier is greater than every identifier of its kind in `v`, and no
/// counter goes back.
pub open spec fn ids_only_grow(v: KernelView, s: KernelView) -> bool {
    &&& v.next_pid <= s.next_pid
    &&& v.next_port_id <= s.next_port_id
    &&& v.next_cap_id <= s.next_cap_id
    &&& v.processes.len() <= s.processes.len()
    &&& v.ports.len() <= s.ports.len()
    &&& v.capabilities.len() <= s.capabilities.len()
    &&& forall|i: int|
        0 <= i < v.processes.len() ==> #[trigger] s.processes[i].id == v.processes[i].id
    &&& forall|i: int| 0 <= i < v.ports.len() ==> #[trigger] s.ports[i].id == v.ports[i].id
    &&& forall|i: int|
        0 <= i < v.capabilities.len() ==> #[trigger] s.capabilities[i].id
            == v.capabilities[i].id
    &&& forall|i: int, j: int|
        v.processes.len() <= i < s.processes.len() && 0 <= j < v.processes.len()
            ==> #[trigger] v.processes[j].id < #[trigger] s.processes[i].id
    &&& forall|i: int, j: int|
        v.ports.len() <= i < s.ports.len() && 0 <= j < v.ports.len() ==> #[trigger] v.ports[j].id
            < #[trigger] s.ports[i].id
    &&& forall|i: int, j: int|
        v.capabilities.len() <= i < s.capabilities.len() && 0 <= j < v.capabilities.len()
            ==> #[trigger] v.capabilities[j].id < #[trigger] s.capabilities[i].id
}

/// Identifiers are never reused: every process, port or capability a call
/// creates is named above all those of its kind created before it.
pub proof fn lemma_ids_increase(v: KernelView, num: u64, args: [u64; 6], msg: Seq<u64>)
    requires
        v.wf(),
    ensures
        ids_only_grow(v, v.dispatch(num, args, msg).2),
{
    let s = v.dispatch(num, args, msg).2;
    if num == SYS_PORT_SEND {
        let (r, _) = v.send(args[0] as u32, msg, args[2] as usize);
        if r == E_OK {
            assert(forall|k: int| 0 <= k < v.ports.len() ==> #[trigger] s.ports[k].id == v.ports[k].id);
        }
    } else if num == SYS_PORT_RECEIVE {
        assert(forall|k: int| 0 <= k < v.ports.len() ==> #[trigger] s.ports[k].id == v.ports[k].id);
    } else if num == SYS_CAP_MOVE {
        assert(forall|k: int|
            0 <= k < v.capabilities.len() ==> #[trigger] s.capabilities[k].id
                == v.capabilities[k].id);
    }
}

} // verus!
