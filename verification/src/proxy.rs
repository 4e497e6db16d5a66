//! The buffers between the two ends of a vsock proxy.
//!
//! A proxy copies bytes from a host socket to the guest's connection and
//! back. Each direction has a pipe of its own: the reading side pushes what
//! it has read, the writing side pops what it can write. A full pipe takes
//! no more, so that a writer that stalls makes its reader stall.

use vstd::prelude::*;

verus! {

/// A bounded queue of bytes.
pub struct Pipe {
    held: Vec<u8>,
    capacity: usize,
}

/// A [`Pipe`] as a mathematical value.
pub struct PipeView {
    /// The bytes that were pushed and not yet popped, oldest first.
    pub held: Seq<u8>,
    /// The most bytes that the pipe holds.
    pub capacity: nat,
}

/// The smaller of two numbers.
pub open spec fn least(a: int, b: int) -> int {
    if a <= b {
        a
    } else {
        b
    }
}

impl PipeView {
    /// The number of bytes of a push that the pipe takes.
    pub open spec fn taken(self, data: Seq<u8>) -> int {
        least(data.len() as int, self.capacity - self.held.len())
    }

    /// The pipe after a push: it holds the bytes that it held, then as many
    /// of the new bytes as it has room for, from the first on.
    pub open spec fn pushed(self, data: Seq<u8>) -> PipeView {
        PipeView { held: self.held + data.subrange(0, self.taken(data)), ..self }
    }

    /// The number of bytes that a pop of at most `max` bytes hands out.
    pub open spec fn given(self, max: nat) -> int {
        least(max as int, self.held.len() as int)
    }

    /// The pipe after a pop of at most `max` bytes.
    pub open spec fn popped(self, max: nat) -> PipeView {
        PipeView { held: self.held.subrange(self.given(max), self.held.len() as int), ..self }
    }
}

impl View for Pipe {
    type V = PipeView;

    closed spec fn view(&self) -> PipeView {
        PipeView { held: self.held@, capacity: self.capacity as nat }
    }
}

impl Pipe {
    /// The invariant of a pipe: it holds no more than its capacity.
    pub closed spec fn inv(&self) -> bool {
        self.held@.len() <= self.capacity
    }

    /// A pipe in its invariant holds no more than its capacity.
    pub proof fn lemma_inv(&self)
        requires
            self.inv(),
        ensures
            self@.held.len() <= self@.capacity,
    {
    }

    /// Makes an empty pipe that holds at most `capacity` bytes.
    pub fn new(capacity: usize) -> (pipe: Pipe)
        ensures
            pipe.inv(),
            pipe@.held == Seq::<u8>::empty(),
            pipe@.capacity == capacity,
    {
        Pipe { held: Vec::new(), capacity }
    }

    /// Returns the number of bytes that the pipe holds.
    pub fn len(&self) -> (n: usize)
        ensures
            n == self@.held.len(),
    {
        self.held.len()
    }

    /// Tells whether the pipe holds no byte.
    pub fn is_empty(&self) -> (empty: bool)
        ensures
            empty == (self@.held.len() == 0),
    {
        self.held.len() == 0
    }

    /// Returns the number of bytes for which the pipe has room.
    pub fn space(&self) -> (n: usize)
        requires
            self.inv(),
        ensures
            n == self@.capacity - self@.held.len(),
    {
        self.capacity - self.held.len()
    }

    /// Pushes bytes into the pipe, as many as it has room for, from the
    /// first on, and returns how many it took. The caller offers the rest
    /// again once bytes have been popped.
    pub fn push(&mut self, data: &[u8]) -> (taken: usize)
        requires
            old(self).inv(),
        ensures
            final(self).inv(),
            taken == old(self)@.taken(data@),
            final(self)@ == old(self)@.pushed(data@),
    {
        let room = self.capacity - self.held.len();
        let taken = if data.len() <= room {
            data.len()
        } else {
            room
        };
        let mut i: usize = 0;
        while i < taken
            invariant
                i <= taken <= data@.len(),
                taken <= self.capacity - old(self).held@.len(),
                self.capacity == old(self).capacity,
                self.held@ == old(self).held@ + data@.subrange(0, i as int),
            decreases taken - i,
        {
            self.held.push(data[i]);
            proof {
                assert(self.held@ =~= old(self).held@ + data@.subrange(0, i + 1));
            }
            i += 1;
        }
        taken
    }

    /// Pops the oldest bytes out of the pipe, at most `max` of them, in the
    /// order in which they were pushed.
    pub fn pop(&mut self, max: usize) -> (out: Vec<u8>)
        requires
            old(self).inv(),
        ensures
            final(self).inv(),
            out@ == old(self)@.held.subrange(0, old(self)@.given(max as nat)),
            final(self)@ == old(self)@.popped(max as nat),
    {
        let given = if max <= self.held.len() {
            max
        } else {
            self.held.len()
        };
        let rest = self.held.split_off(given);
        let mut out: Vec<u8> = Vec::new();
        out.append(&mut self.held);
        self.held = rest;
        proof {
            assert(out@ =~= old(self)@.held.subrange(0, given as int));
            assert(self.held@ =~= old(self)@.held.subrange(given as int, old(self)@.held.len() as int));
        }
        out
    }
}

/// One use of a pipe.
pub enum PipeOp {
    /// Push these bytes.
    Push(Seq<u8>),
    /// Pop at most so many bytes.
    Pop(nat),
}

/// A pipe together with all that went into it and all that came out of it.
pub struct Flow {
    pub pipe: PipeView,
    /// Every byte that the pipe took, in the order of taking.
    pub sent: Seq<u8>,
    /// Every byte that the pipe handed out, in the order of handing out.
    pub delivered: Seq<u8>,
}

impl Flow {
    /// An empty pipe that nothing has passed through.
    pub open spec fn start(capacity: nat) -> Flow {
        Flow {
            pipe: PipeView { held: Seq::empty(), capacity },
            sent: Seq::empty(),
            delivered: Seq::empty(),
        }
    }

    /// The flow after one more use of the pipe.
    pub open spec fn step(self, op: PipeOp) -> Flow {
        match op {
            PipeOp::Push(data) => Flow {
                pipe: self.pipe.pushed(data),
                sent: self.sent + data.subrange(0, self.pipe.taken(data)),
                ..self
            },
            PipeOp::Pop(max) => Flow {
                pipe: self.pipe.popped(max),
                delivered: self.delivered + self.pipe.held.subrange(0, self.pipe.given(max)),
                ..self
            },
        }
    }

    /// The flow after a sequence of uses.
    pub open spec fn run(self, ops: Seq<PipeOp>) -> Flow
        decreases ops.len(),
    {
        if ops.len() == 0 {
            self
        } else {
            self.run(ops.drop_last()).step(ops.last())
        }
    }

    /// Whatever is pushed and popped in whatever order, the bytes come out
    /// in the order in which they went in, none lost, none twice, none made
    /// up: what came out, followed by what the pipe holds, is what went in.
    /// And the pipe never holds more than its capacity.
    pub proof fn lemma_order_is_kept(capacity: nat, ops: Seq<PipeOp>)
        ensures
            Flow::start(capacity).run(ops).delivered + Flow::start(capacity).run(ops).pipe.held
                == Flow::start(capacity).run(ops).sent,
            Flow::start(capacity).run(ops).delivered.is_prefix_of(
                Flow::start(capacity).run(ops).sent,
            ),
            Flow::start(capacity).run(ops).pipe.held.len() <= capacity,
            Flow::start(capacity).run(ops).pipe.capacity == capacity,
        decreases ops.len(),
    {
        let now = Flow::start(capacity).run(ops);
        if ops.len() == 0 {
            assert(now.delivered + now.pipe.held =~= now.sent);
        } else {
            let before = Flow::start(capacity).run(ops.drop_last());
            Flow::lemma_order_is_kept(capacity, ops.drop_last());
            assert(before.delivered + before.pipe.held == before.sent);
            match ops.last() {
                PipeOp::Push(data) => {
                    let more = data.subrange(0, before.pipe.taken(data));
                    assert(now.delivered + now.pipe.held =~= (before.delivered + before.pipe.held)
                        + more);
                },
                PipeOp::Pop(max) => {
                    let k = before.pipe.given(max);
                    assert(before.pipe.held =~= before.pipe.held.subrange(0, k)
                        + before.pipe.held.subrange(k, before.pipe.held.len() as int));
                    assert(now.delivered + now.pipe.held =~= before.delivered + before.pipe.held);
                },
            }
        }
        assert(now.delivered =~= now.sent.subrange(0, now.delivered.len() as int));
    }
}

} // verus!
