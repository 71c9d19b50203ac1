//! The broadcast hub: a single process-wide fan-out log that every connection
//! handler publishes to and subscribes from.
//!
//! The hub keeps a bounded ring of the most recently published envelopes.
//! `publish` never blocks: when the ring is full the oldest entry is
//! overwritten. Each subscriber owns a [`Cursor`], a position into the hub's
//! stream; a cursor that falls behind by more than the capacity observes
//! `Lagged(n)` once and resumes from the oldest still-buffered envelope.
//!
//! Isolation between subscribers is visible in the signatures themselves:
//! [`Hub::recv`] borrows the hub immutably and mutates only the one cursor
//! handed to it, and [`Hub::publish`] takes no cursor at all — so no
//! subscriber's backlog can block a publisher or another subscriber.

use vstd::prelude::*;

verus! {

/// A published message paired with the identity of the connection that
/// published it. Created once per inbound line; never mutated.
pub struct Envelope {
    /// The text of one inbound line.
    pub text: String,
    /// Identity of the publishing connection, used only to filter "self"
    /// during fan-out.
    pub origin: u64,
}

/// Mathematical model of an [`Envelope`]: the characters of its text and its
/// origin.
#[verifier::ext_equal]
pub struct EnvModel {
    pub text: Seq<char>,
    pub origin: u64,
}

impl View for Envelope {
    type V = EnvModel;

    open spec fn view(&self) -> EnvModel {
        EnvModel { text: self.text@, origin: self.origin }
    }
}

impl Envelope {
    /// An owned copy of this envelope, with the same text and origin.
    pub fn duplicate(&self) -> (e: Envelope)
        ensures
            e@ == self@,
    {
        Envelope { text: self.text.clone(), origin: self.origin }
    }
}

/// Mathematical model of the hub: the full sequence of envelopes ever
/// published, the ring capacity, and whether the hub has been closed.
#[verifier::ext_equal]
pub struct HubModel {
    /// Every envelope ever published, in publish order.
    pub history: Seq<EnvModel>,
    /// Bound on how many of the most recent envelopes stay buffered.
    pub capacity: nat,
    /// True once the whole hub is shut down.
    pub closed: bool,
}

impl HubModel {
    /// Index into `history` of the oldest envelope still buffered.
    pub open spec fn oldest(self) -> int {
        if self.history.len() <= self.capacity {
            0
        } else {
            self.history.len() - self.capacity
        }
    }

    pub open spec fn wf(self) -> bool {
        &&& self.capacity >= 1
        &&& self.history.len() <= u64::MAX
    }

    /// A cursor position is anywhere from the start of history to one past
    /// its end (the tail, where a fresh subscription starts).
    pub open spec fn valid_pos(self, pos: int) -> bool {
        0 <= pos <= self.history.len()
    }
}

/// What publishing one envelope does to the hub model: the envelope is
/// appended to the history; capacity and closed-ness are untouched.
pub open spec fn publish_model(h: HubModel, e: EnvModel) -> HubModel {
    HubModel { history: h.history.push(e), ..h }
}

/// One subscriber's read position into the hub's stream.
pub struct Cursor {
    pos: u64,
}

impl View for Cursor {
    type V = int;

    closed spec fn view(&self) -> int {
        self.pos as int
    }
}

/// Outcome of one cursor read.
pub enum Receive {
    /// The next not-yet-seen envelope for this cursor.
    Msg(Envelope),
    /// The cursor fell behind by more than the capacity; `n` envelopes were
    /// skipped and the cursor has resumed from the oldest buffered entry.
    Lagged(u64),
    /// Nothing new yet: the caller should wait for the next publish.
    Pending,
    /// The hub is closed and every envelope has been seen.
    Closed,
}

/// Mathematical model of a [`Receive`] outcome.
pub enum ReceiveModel {
    Msg(EnvModel),
    Lagged(int),
    Pending,
    Closed,
}

impl View for Receive {
    type V = ReceiveModel;

    open spec fn view(&self) -> ReceiveModel {
        match self {
            Receive::Msg(e) => ReceiveModel::Msg(e@),
            Receive::Lagged(n) => ReceiveModel::Lagged(*n as int),
            Receive::Pending => ReceiveModel::Pending,
            Receive::Closed => ReceiveModel::Closed,
        }
    }
}

/// What one cursor read at position `pos` yields.
pub open spec fn next_outcome(h: HubModel, pos: int) -> ReceiveModel {
    if pos >= h.history.len() {
        if h.closed {
            ReceiveModel::Closed
        } else {
            ReceiveModel::Pending
        }
    } else if pos < h.oldest() {
        ReceiveModel::Lagged(h.oldest() - pos)
    } else {
        ReceiveModel::Msg(h.history[pos])
    }
}

/// Where one cursor read at position `pos` leaves the cursor.
pub open spec fn next_pos(h: HubModel, pos: int) -> int {
    if pos >= h.history.len() {
        pos
    } else if pos < h.oldest() {
        h.oldest()
    } else {
        pos + 1
    }
}

/// The shared broadcast hub. Exactly one exists per server process.
pub struct Hub {
    /// The buffered envelopes, oldest first: the last
    /// `min(|history|, capacity)` entries of the history.
    buf: Vec<Envelope>,
    /// How many envelopes have been overwritten (dropped from the ring).
    dropped: u64,
    /// Ring capacity.
    capacity: usize,
    /// Set once at process shutdown.
    closed: bool,
    /// The full publish history, kept only for specification.
    history: Ghost<Seq<EnvModel>>,
}

impl View for Hub {
    type V = HubModel;

    closed spec fn view(&self) -> HubModel {
        HubModel { history: self.history@, capacity: self.capacity as nat, closed: self.closed }
    }
}

impl Hub {
    /// The buffered ring holds exactly the most recent envelopes of the
    /// history, in order.
    pub closed spec fn wf(self) -> bool {
        &&& self.capacity >= 1
        &&& self.buf.len() <= self.capacity
        &&& self.history@.len() == self.dropped + self.buf.len()
        &&& self.history@.len() <= u64::MAX
        &&& (self.history@.len() <= self.capacity ==> self.dropped == 0)
        &&& (self.history@.len() > self.capacity ==> self.buf.len() == self.capacity)
        &&& (forall|i: int|
            0 <= i < self.buf.len() ==> self.buf[i]@ == self.history@[self.dropped + i])
    }

    /// A fresh hub with the given ring capacity and an empty history.
    pub fn new(capacity: usize) -> (h: Hub)
        requires
            capacity >= 1,
        ensures
            h.wf(),
            h@.history == Seq::<EnvModel>::empty(),
            h@.capacity == capacity as nat,
            !h@.closed,
    {
        Hub {
            buf: Vec::new(),
            dropped: 0,
            capacity,
            closed: false,
            history: Ghost(Seq::empty()),
        }
    }

    /// Publish one envelope: append it to the shared log. Never blocks; when
    /// the ring is full the oldest buffered entry is overwritten. Succeeds
    /// even with zero subscribers (the envelope is simply never observed).
    pub fn publish(&mut self, env: Envelope)
        requires
            old(self).wf(),
            old(self)@.history.len() < u64::MAX,
        ensures
            final(self).wf(),
            final(self)@ == publish_model(old(self)@, env@),
    {
        if self.buf.len() == self.capacity {
            self.buf.remove(0);
            self.dropped = self.dropped + 1;
        }
        let ghost new_hist = self.history@.push(env@);
        self.buf.push(env);
        self.history = Ghost(new_hist);
    }

    /// A new cursor positioned at the current tail of the log: it observes no
    /// history from before the subscription.
    pub fn subscribe(&self) -> (c: Cursor)
        requires
            self.wf(),
        ensures
            c@ == self@.history.len(),
    {
        Cursor { pos: self.dropped + self.buf.len() as u64 }
    }

    /// Produce the next not-yet-seen envelope for this cursor, in publish
    /// order. A cursor that fell behind the ring observes `Lagged(n)` once
    /// and resumes from the oldest buffered entry; a cursor at the tail of an
    /// open hub observes `Pending` (the caller waits for the next publish);
    /// one at the tail of a closed hub observes `Closed`.
    ///
    /// The hub is borrowed immutably and only `cursor` moves: reading never
    /// disturbs the log, a publisher, or any other subscriber.
    pub fn recv(&self, cursor: &mut Cursor) -> (r: Receive)
        requires
            self.wf(),
            self@.valid_pos(old(cursor)@),
        ensures
            self@.valid_pos(final(cursor)@),
            r@ == next_outcome(self@, old(cursor)@),
            final(cursor)@ == next_pos(self@, old(cursor)@),
    {
        let len: u64 = self.dropped + self.buf.len() as u64;
        if cursor.pos >= len {
            if self.closed {
                Receive::Closed
            } else {
                Receive::Pending
            }
        } else if cursor.pos < self.dropped {
            let skipped: u64 = self.dropped - cursor.pos;
            cursor.pos = self.dropped;
            Receive::Lagged(skipped)
        } else {
            let idx: usize = (cursor.pos - self.dropped) as usize;
            let env = self.buf[idx].duplicate();
            cursor.pos = cursor.pos + 1;
            Receive::Msg(env)
        }
    }

    /// How many envelopes have ever been published to this hub.
    pub fn published_count(&self) -> (n: u64)
        requires
            self.wf(),
        ensures
            n == self@.history.len(),
    {
        self.dropped + self.buf.len() as u64
    }

    /// Shut the hub down: every cursor that has seen the whole history then
    /// observes `Closed`.
    pub fn close(&mut self)
        requires
            old(self).wf(),
        ensures
            final(self).wf(),
            final(self)@ == (HubModel { closed: true, ..old(self)@ }),
    {
        self.closed = true;
    }
}

} // verus!
