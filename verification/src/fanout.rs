//! Fan-out channel: a bounded single-producer broadcast primitive.
//!
//! Every subscription created before a frame is sent observes that frame,
//! independently of the other subscriptions. The channel retains the most
//! recent `capacity` frames; a subscription that falls further behind
//! loses the evicted frames and is told exactly how many it missed. The
//! sender is never blocked by a slow subscription.

use vstd::prelude::*;

verus! {

/// Frames the fan-out channel retains for subscriptions that fall behind.
pub const BROADCAST_QUEUE_SIZE: usize = 100;

/// The abstract state of a fan-out channel: the whole sequence of frames
/// ever sent, the retention capacity, and whether the producer has shut
/// down.
pub struct FanOutView {
    pub history: Seq<Seq<u8>>,
    pub capacity: nat,
    pub closed: bool,
}

impl FanOutView {
    /// Cursor position of the oldest frame still retained: everything
    /// before it has been evicted.
    pub open spec fn head(self) -> nat {
        if self.history.len() <= self.capacity {
            0
        } else {
            (self.history.len() - self.capacity) as nat
        }
    }

    /// The frames a subscription whose cursor is `c` has yet to observe,
    /// oldest first, assuming it does not fall behind again.
    pub open spec fn pending(self, c: nat) -> Seq<Seq<u8>>
        recommends
            c <= self.history.len(),
    {
        self.history.skip(c as int)
    }
}

/// A per-subscription cursor into the shared history.
pub struct Subscription {
    next: usize,
}

impl Subscription {
    /// Position in the channel history of the next frame this
    /// subscription would observe.
    pub closed spec fn cursor(&self) -> nat {
        self.next as nat
    }

    /// The cursor never points past the history.
    pub open spec fn valid_for(&self, v: FanOutView) -> bool {
        self.cursor() <= v.history.len()
    }
}

/// What one receive attempt yields.
pub enum RecvOutcome {
    /// The next frame, in publication order.
    Frame(Vec<u8>),
    /// The subscription fell behind; this many frames were evicted before
    /// it was drained. The cursor has advanced past the loss.
    Lagged(usize),
    /// Nothing published yet beyond this cursor; the caller should wait.
    Empty,
    /// The producer has shut down and everything sent was observed.
    Closed,
}

/// The shared broadcaster. It keeps the most recent `capacity` frames in
/// a ring so that each subscription can read at its own pace, and a ghost
/// record of the whole history that the contracts speak of.
pub struct FanOutChannel {
    buffer: Vec<Vec<u8>>,
    head: usize,
    capacity: usize,
    closed: bool,
    history: Ghost<Seq<Seq<u8>>>,
}

impl View for FanOutChannel {
    type V = FanOutView;

    closed spec fn view(&self) -> FanOutView {
        FanOutView { history: self.history@, capacity: self.capacity as nat, closed: self.closed }
    }
}

/// A copy of a frame, byte for byte.
fn clone_bytes(src: &Vec<u8>) -> (r: Vec<u8>)
    ensures
        r@ == src@,
{
    let mut r: Vec<u8> = Vec::new();
    let mut j: usize = 0;
    while j < src.len()
        invariant
            j <= src@.len(),
            r@ == src@.take(j as int),
        decreases src@.len() - j,
    {
        r.push(src[j]);
        assert(src@.take(j + 1) =~= src@.take(j as int).push(src@[j as int]));
        j += 1;
    }
    assert(src@.take(src@.len() as int) =~= src@);
    r
}

impl FanOutChannel {
    /// The retained frames mirror the tail of the history.
    pub closed spec fn wf(&self) -> bool {
        &&& self.capacity > 0
        &&& self.history@.len() <= usize::MAX
        &&& self.head == self@.head()
        &&& self.buffer@.len() == self.history@.len() - self.head
        &&& forall|i: int|
            0 <= i < self.buffer@.len() ==> self.buffer@[i]@ == self.history@[self.head + i]
    }

    /// A fresh channel: nothing sent, nobody subscribed, producer live.
    pub fn new(capacity: usize) -> (c: Self)
        requires
            capacity > 0,
        ensures
            c.wf(),
            c@.history == Seq::<Seq<u8>>::empty(),
            c@.capacity == capacity,
            !c@.closed,
    {
        FanOutChannel {
            buffer: Vec::new(),
            head: 0,
            capacity,
            closed: false,
            history: Ghost(Seq::empty()),
        }
    }

    /// A new cursor that will observe exactly the frames sent after this
    /// call; no backlog is replayed.
    pub fn subscribe(&self) -> (s: Subscription)
        requires
            self.wf(),
        ensures
            s.cursor() == self@.history.len(),
            s.valid_for(self@),
    {
        Subscription { next: self.head + self.buffer.len() }
    }

    /// How many frames have ever been sent on this channel.
    pub fn sent_count(&self) -> (n: usize)
        requires
            self.wf(),
        ensures
            n == self@.history.len(),
    {
        self.head + self.buffer.len()
    }

    /// Publishes a frame: it is appended to the history that every
    /// subscription reads, and the oldest retained frame is evicted when
    /// the ring is full. The sender never waits for a slow subscription.
    pub fn send(&mut self, frame: Vec<u8>)
        requires
            old(self).wf(),
            old(self)@.history.len() < usize::MAX,
        ensures
            final(self).wf(),
            final(self)@.history == old(self)@.history.push(frame@),
            final(self)@.capacity == old(self)@.capacity,
            final(self)@.closed == old(self)@.closed,
    {
        let ghost frame_view = frame@;
        if self.buffer.len() == self.capacity {
            self.buffer.remove(0);
            self.head = self.head + 1;
        }
        self.buffer.push(frame);
        proof {
            self.history@ = self.history@.push(frame_view);
        }
    }

    /// Shuts the producer down; the history stops growing and every
    /// subscription that catches up observes `Closed`.
    pub fn close(&mut self)
        requires
            old(self).wf(),
        ensures
            final(self).wf(),
            final(self)@.history == old(self)@.history,
            final(self)@.capacity == old(self)@.capacity,
            final(self)@.closed,
    {
        self.closed = true;
    }

    /// One receive attempt for `sub`. In publication order: a cursor that
    /// fell behind the retained window reports exactly how many frames it
    /// missed and skips to the oldest retained frame; otherwise the next
    /// pending frame is handed out; with nothing pending the outcome is
    /// `Closed` after shutdown and `Empty` before. The channel itself is
    /// never changed: no subscription can perturb another.
    pub fn recv(&self, sub: &mut Subscription) -> (r: RecvOutcome)
        requires
            self.wf(),
            old(sub).valid_for(self@),
        ensures
            final(sub).valid_for(self@),
            ({
                let v = self@;
                let c = old(sub).cursor();
                if c < v.head() {
                    &&& r matches RecvOutcome::Lagged(n) && n == v.head() - c
                    &&& final(sub).cursor() == v.head()
                } else if c < v.history.len() {
                    &&& r matches RecvOutcome::Frame(f) && f@ == v.history[c as int]
                    &&& final(sub).cursor() == c + 1
                } else if v.closed {
                    &&& r matches RecvOutcome::Closed
                    &&& final(sub).cursor() == c
                } else {
                    &&& r matches RecvOutcome::Empty
                    &&& final(sub).cursor() == c
                }
            }),
    {
        if sub.next < self.head {
            let missed = self.head - sub.next;
            sub.next = self.head;
            RecvOutcome::Lagged(missed)
        } else if sub.next < self.head + self.buffer.len() {
            let idx = sub.next - self.head;
            let frame = clone_bytes(&self.buffer[idx]);
            sub.next = sub.next + 1;
            RecvOutcome::Frame(frame)
        } else if self.closed {
            RecvOutcome::Closed
        } else {
            RecvOutcome::Empty
        }
    }
}

/// Each in-order receive hands out exactly the first pending frame: the
/// pending sequence decomposes one frame at a time, so successive
/// receives without lag walk the history in publication order.
pub proof fn lemma_pending_step(v: FanOutView, c: nat)
    requires
        c < v.history.len(),
    ensures
        v.pending(c) == seq![v.history[c as int]] + v.pending((c + 1) as nat),
{
    assert(v.pending(c) =~= seq![v.history[c as int]] + v.pending((c + 1) as nat));
}

/// Fan-out correctness: subscriptions that were both live before a block
/// of frames was published, and that have not fallen behind the retained
/// window, have that whole block pending: the same frames in the same
/// relative order, whatever else each already observed.
pub proof fn lemma_fanout_agreement(v: FanOutView, c1: nat, c2: nat, base: nat)
    requires
        c1 <= base,
        c2 <= base,
        base <= v.history.len(),
        v.head() <= c1,
        v.head() <= c2,
    ensures
        v.pending(c1).skip((base - c1) as int) == v.history.skip(base as int),
        v.pending(c2).skip((base - c2) as int) == v.history.skip(base as int),
        v.pending(c1).skip((base - c1) as int) == v.pending(c2).skip((base - c2) as int),
{
    assert(v.pending(c1).skip((base - c1) as int) =~= v.history.skip(base as int));
    assert(v.pending(c2).skip((base - c2) as int) =~= v.history.skip(base as int));
}

/// Lag recovery: if `capacity + d` frames are published past a
/// subscription's cursor before it is drained, its next receive reports
/// exactly `d` missed frames, and what it observes afterwards are the
/// frames published after the loss — the most recent `capacity` ones —
/// never a stale frame.
pub proof fn lemma_lag_recovery(v: FanOutView, c: nat, d: nat)
    requires
        0 < d,
        v.history.len() == c + v.capacity + d,
    ensures
        c < v.head(),
        v.head() - c == d,
        v.pending(v.head()) == v.history.skip((c + d) as int),
        v.pending(v.head()).len() == v.capacity,
{
}

/// Isolation: what a subscription has pending is a function of the shared
/// history and its own cursor alone. Receiving on the channel never
/// changes the channel, and dropping a subscription touches nothing
/// shared; so any event that leaves the history as it is — another
/// session receiving, lagging, or terminating — leaves every other
/// subscription's delivery sequence unchanged.
pub proof fn lemma_isolation(v1: FanOutView, v2: FanOutView, c: nat)
    requires
        v1.history == v2.history,
        v1.capacity == v2.capacity,
        c <= v1.history.len(),
    ensures
        v1.pending(c) == v2.pending(c),
        v1.head() == v2.head(),
{
}

} // verus!
