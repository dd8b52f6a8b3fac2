//! Ports: bounded rings of fixed-size messages.

use vstd::prelude::*;

verus! {

/// A message is exactly eight 64-bit words.
pub type Message = [u64; 8];

/// Number of slots in a port's ring.
pub const PORT_CAPACITY: u32 = 64;

/// Abstract state of a port: its identity, where the ring's cursors stand,
/// and the messages it holds, oldest first.
pub struct PortView {
    pub id: u32,
    pub owner_pid: u32,
    pub head: int,
    pub tail: int,
    pub messages: Seq<Seq<u64>>,
}

impl PortView {
    /// Cursors in range, at most one ring's worth of messages, and the tail
    /// one slot past the newest message.
    pub open spec fn wf(self) -> bool {
        &&& 0 <= self.head < 64
        &&& 0 <= self.tail < 64
        &&& self.messages.len() <= 64
        &&& self.tail == (self.head + self.messages.len()) % 64
    }

    pub open spec fn is_full(self) -> bool {
        self.messages.len() == 64
    }

    pub open spec fn is_empty(self) -> bool {
        self.messages.len() == 0
    }

    /// Appending a message: the tail moves one slot on; a full ring is left as is.
    pub open spec fn enqueue(self, m: Seq<u64>) -> PortView {
        if self.messages.len() < 64 {
            PortView { tail: (self.tail + 1) % 64, messages: self.messages.push(m), ..self }
        } else {
            self
        }
    }

    /// Taking the oldest message: the head moves one slot on; an empty ring
    /// yields nothing and is left as is.
    pub open spec fn dequeue(self) -> (Option<Seq<u64>>, PortView) {
        if self.messages.len() == 0 {
            (None, self)
        } else {
            (
                Some(self.messages[0]),
                PortView { head: (self.head + 1) % 64, messages: self.messages.drop_first(), ..self },
            )
        }
    }

    /// Appending each of `ms` in turn.
    pub open spec fn enqueue_all(self, ms: Seq<Seq<u64>>) -> PortView
        decreases ms.len(),
    {
        if ms.len() == 0 {
            self
        } else {
            self.enqueue(ms[0]).enqueue_all(ms.drop_first())
        }
    }

    /// Taking `n` messages in turn: what came out, and the port afterwards.
    pub open spec fn dequeue_n(self, n: nat) -> (Seq<Seq<u64>>, PortView)
        decreases n,
    {
        if n == 0 {
            (Seq::empty(), self)
        } else {
            let (m, rest) = self.dequeue();
            let (out, last) = rest.dequeue_n((n - 1) as nat);
            match m {
                Some(m) => (seq![m] + out, last),
                None => (out, last),
            }
        }
    }
}

/// The words of a message that may have been produced.
pub open spec fn message_view(r: Option<Message>) -> Option<Seq<u64>> {
    match r {
        Some(m) => Some(m@),
        None => None,
    }
}

/// A kernel-hosted FIFO of up to 64 messages, each copied in and out by value.
#[derive(Clone, Copy, Debug)]
pub struct Port {
    pub id: u32,
    pub owner_pid: u32,
    pub queue: [Message; 64],
    pub queue_head: u32,
    pub queue_tail: u32,
    pub queue_size: u32,
    pub max_queue_size: u32,
}

impl View for Port {
    type V = PortView;

    open spec fn view(&self) -> PortView {
        PortView {
            id: self.id,
            owner_pid: self.owner_pid,
            head: self.queue_head as int,
            tail: self.queue_tail as int,
            messages: Seq::new(
                self.queue_size as nat,
                |k: int| self.queue@[(self.queue_head + k) % 64]@,
            ),
        }
    }
}

impl Port {
    /// The ring holds 64 slots and its cursors agree with its size.
    pub open spec fn wf(&self) -> bool {
        &&& self.max_queue_size == PORT_CAPACITY
        &&& self.queue_head < 64
        &&& self.queue_tail < 64
        &&& self.queue_size <= 64
        &&& self.queue_tail as int == (self.queue_head + self.queue_size) % 64
    }

    pub fn new(id: u32, owner_pid: u32) -> (r: Self)
        ensures
            r.wf(),
            r@ == (PortView { id, owner_pid, head: 0, tail: 0, messages: Seq::empty() }),
    {
        let r = Port {
            id,
            owner_pid,
            queue: [[0u64; 8]; 64],
            queue_head: 0,
            queue_tail: 0,
            queue_size: 0,
            max_queue_size: PORT_CAPACITY,
        };
        assert(r@.messages =~= Seq::empty());
        r
    }

    pub fn is_full(&self) -> (r: bool)
        ensures
            r == (self.queue_size >= self.max_queue_size),
            self.wf() ==> r == self@.is_full(),
    {
        self.queue_size >= self.max_queue_size
    }

    pub fn is_empty(&self) -> (r: bool)
        ensures
            r == (self.queue_size == 0),
            r == self@.is_empty(),
    {
        self.queue_size == 0
    }

    /// Copies `msg` into the slot at the tail; refuses when the ring is full.
    pub fn push_message(&mut self, msg: &Message) -> (r: bool)
        requires
            old(self).wf(),
        ensures
            final(self).wf(),
            r == !old(self)@.is_full(),
            final(self)@ == old(self)@.enqueue(msg@),
    {
        if self.is_full() {
            return false;
        }
        let ghost before = self@;
        let tail = self.queue_tail;
        self.queue[tail as usize] = *msg;
        self.queue_tail = (tail + 1) % 64;
        self.queue_size = self.queue_size + 1;
        assert(self@.messages =~= before.messages.push(msg@)) by {
            assert forall|k: int| 0 <= k < before.messages.len() implies
                #[trigger] self@.messages[k] == before.messages[k] by {
                assert((self.queue_head + k) % 64 != tail as int);
            }
        }
        true
    }

    /// Takes the message at the head, or nothing when the ring is empty.
    pub fn pop_message(&mut self) -> (r: Option<Message>)
        requires
            old(self).wf(),
        ensures
            final(self).wf(),
            (message_view(r), final(self)@) == old(self)@.dequeue(),
    {
        if self.is_empty() {
            return None;
        }
        let ghost before = self@;
        let head = self.queue_head;
        let msg = self.queue[head as usize];
        self.queue_head = (head + 1) % 64;
        self.queue_size = self.queue_size - 1;
        assert(self@.messages =~= before.messages.drop_first());
        Some(msg)
    }
}

/// A port's ring is always within bounds: size at most 64, cursors below
/// 64, empty exactly at size 0 and full exactly at size 64.
pub proof fn lemma_port_invariant(p: Port)
    requires
        p.wf(),
    ensures
        p@.wf(),
        p.queue_size <= 64,
        p.queue_head < 64,
        p.queue_tail < 64,
        (p.queue_size == 0) == p@.is_empty(),
        (p.queue_size == 64) == p@.is_full(),
{
}

/// Appending messages that fit moves the tail on by their number and puts
/// them after those already held.
pub proof fn lemma_enqueue_all(v: PortView, ms: Seq<Seq<u64>>)
    requires
        v.wf(),
        v.messages.len() + ms.len() <= 64,
    ensures
        v.enqueue_all(ms) == (PortView {
            tail: (v.tail + ms.len()) % 64,
            messages: v.messages + ms,
            ..v
        }),
        v.enqueue_all(ms).wf(),
    decreases ms.len(),
{
    if ms.len() == 0 {
        assert(v.messages + ms =~= v.messages);
    } else {
        let v1 = v.enqueue(ms[0]);
        lemma_enqueue_all(v1, ms.drop_first());
        assert(v.messages.push(ms[0]) + ms.drop_first() =~= v.messages + ms);
    }
}

/// Taking `n` of the messages held yields the oldest `n` and moves the head
/// on by `n`.
pub proof fn lemma_dequeue_n(v: PortView, n: nat)
    requires
        v.wf(),
        n <= v.messages.len(),
    ensures
        v.dequeue_n(n) == (
            v.messages.subrange(0, n as int),
            PortView {
                head: (v.head + n) % 64,
                messages: v.messages.subrange(n as int, v.messages.len() as int),
                ..v
            },
        ),
        v.dequeue_n(n).1.wf(),
    decreases n,
{
    if n == 0 {
        assert(v.messages.subrange(0, 0) =~= Seq::<Seq<u64>>::empty());
        assert(v.messages.subrange(0, v.messages.len() as int) =~= v.messages);
    } else {
        let rest = v.dequeue().1;
        lemma_dequeue_n(rest, (n - 1) as nat);
        assert(seq![v.messages[0]] + rest.messages.subrange(0, n - 1)
            =~= v.messages.subrange(0, n as int));
        assert(rest.messages.subrange(n - 1, rest.messages.len() as int)
            =~= v.messages.subrange(n as int, v.messages.len() as int));
    }
}

/// First in, first out: messages appended to a port come out again, after
/// those it already held, in the order they went in.
pub proof fn lemma_fifo_order(v: PortView, ms: Seq<Seq<u64>>)
    requires
        v.wf(),
        v.messages.len() + ms.len() <= 64,
    ensures
        v.enqueue_all(ms).dequeue_n(v.messages.len() + ms.len()).0 == v.messages + ms,
        v.is_empty() ==> v.enqueue_all(ms).dequeue_n(ms.len()).0 == ms,
{
    lemma_enqueue_all(v, ms);
    let full = v.enqueue_all(ms);
    lemma_dequeue_n(full, full.messages.len());
    assert(full.messages.subrange(0, full.messages.len() as int) =~= full.messages);
    if v.is_empty() {
        assert(v.messages + ms =~= ms);
    }
}

/// Filling an empty port to 64 messages and draining it again brings the
/// ring back to where it started, with head and tail together.
pub proof fn lemma_full_empty_cycle(v: PortView, ms: Seq<Seq<u64>>)
    requires
        v.wf(),
        v.is_empty(),
        ms.len() == 64,
    ensures
        v.enqueue_all(ms).is_full(),
        v.enqueue_all(ms).dequeue_n(64).1 == v,
        v.enqueue_all(ms).dequeue_n(64).1.head == v.enqueue_all(ms).dequeue_n(64).1.tail,
{
    lemma_enqueue_all(v, ms);
    let full = v.enqueue_all(ms);
    lemma_dequeue_n(full, 64);
    let last = full.dequeue_n(64).1;
    assert(last.messages =~= v.messages);
}

} // verus!
