use vstd::prelude::*;

verus! {

// The fan-out primitive of the pipeline: a bounded ring of pending snapshot
// payloads with a monotonically increasing sequence position. The watcher is
// the producer; every observer session reads through its own cursor. The
// delivery policy is bounded-lag, drop-oldest: publishing always succeeds by
// overwriting the oldest buffered payload, and a cursor that has fallen
// further behind than the capacity is advanced forcibly to the oldest
// retained payload, observing a gap instead of stalling the producer.

/// Position of the oldest payload still held in the ring, for a channel
/// that has seen `hist_len` publishes with capacity `cap`.
pub open spec fn oldest_retained(hist_len: nat, cap: nat) -> nat {
    if hist_len <= cap {
        0
    } else {
        (hist_len - cap) as nat
    }
}

/// What one read attempt at position `pos` observes, as a function of the
/// published history and the capacity alone: a session's reception depends
/// on nothing else, in particular not on any other session.
pub enum RecvModel {
    /// The payload published at the cursor's position.
    Delivered(Seq<u8>),
    /// The cursor fell behind the ring; this many payloads were skipped.
    Lagged(nat),
    /// Nothing new has been published past the cursor yet.
    Idle,
}

/// The outcome of one read attempt at position `pos`.
pub open spec fn recv_model(hist: Seq<Seq<u8>>, cap: nat, pos: nat) -> RecvModel {
    if pos >= hist.len() {
        RecvModel::Idle
    } else if pos >= oldest_retained(hist.len(), cap) {
        RecvModel::Delivered(hist[pos as int])
    } else {
        RecvModel::Lagged((oldest_retained(hist.len(), cap) - pos) as nat)
    }
}

/// Where the cursor stands after one read attempt at position `pos`.
pub open spec fn next_pos(hist: Seq<Seq<u8>>, cap: nat, pos: nat) -> nat {
    if pos >= hist.len() {
        pos
    } else if pos >= oldest_retained(hist.len(), cap) {
        pos + 1
    } else {
        oldest_retained(hist.len(), cap)
    }
}

/// A reader's position in the broadcast history. Each observer session owns
/// exactly one; no session can touch another session's cursor.
pub struct Cursor {
    pub pos: u64,
}

/// What `try_next` hands an observer session.
pub enum RecvOutcome {
    /// A payload published after the cursor's previous position.
    Message(Vec<u8>),
    /// The cursor lagged past the ring; this many payloads were skipped and
    /// the cursor now stands at the oldest retained payload.
    Lagged(u64),
    /// Nothing new yet; the session should wait (or send a keep-alive).
    Pending,
}

/// The fan-out channel: a ring of the most recent payloads.
pub struct Broadcaster {
    buf: Vec<Vec<u8>>,
    cap: usize,
    next_seq: u64,
    subscribers: u64,
    hist: Ghost<Seq<Seq<u8>>>,
}

impl Broadcaster {
    /// Every payload ever published, oldest first. Only a suffix of it (at
    /// most `capacity` entries) is still held in the ring.
    pub closed spec fn history(&self) -> Seq<Seq<u8>> {
        self.hist@
    }

    /// The fixed ring capacity.
    pub closed spec fn capacity(&self) -> nat {
        self.cap as nat
    }

    /// How many subscriptions are currently registered.
    pub closed spec fn subscriber_count(&self) -> nat {
        self.subscribers as nat
    }

    /// The ring holds exactly the most recent `min(history, capacity)`
    /// payloads, in publish order.
    pub closed spec fn wf(&self) -> bool {
        &&& 1 <= self.cap
        &&& self.hist@.len() == self.next_seq as nat
        &&& self.buf@.len() == self.hist@.len() - oldest_retained(
            self.hist@.len(),
            self.cap as nat,
        )
        &&& forall|i: int|
            0 <= i < self.buf@.len() ==> self.buf@[i]@ == self.hist@[oldest_retained(
                self.hist@.len(),
                self.cap as nat,
            ) + i]
    }

    /// Creates the channel. Done once at startup; the channel lives for the
    /// process lifetime.
    pub fn new(capacity: usize) -> (b: Broadcaster)
        requires
            capacity >= 1,
        ensures
            b.wf(),
            b.history() == Seq::<Seq<u8>>::empty(),
            b.capacity() == capacity as nat,
            b.subscriber_count() == 0,
    {
        Broadcaster {
            buf: Vec::new(),
            cap: capacity,
            next_seq: 0,
            subscribers: 0,
            hist: Ghost(Seq::empty()),
        }
    }

    /// Makes a payload available to every current and future subscriber.
    /// Publishing never blocks and never fails, however many subscribers
    /// there are and however slowly they read: no clause here mentions the
    /// subscriber count or any cursor, and the history always grows by
    /// exactly the published payload. A full ring drops its oldest entry.
    pub fn publish(&mut self, payload: Vec<u8>)
        requires
            old(self).wf(),
            old(self).history().len() < u64::MAX,
        ensures
            final(self).wf(),
            final(self).history() == old(self).history().push(payload@),
            final(self).capacity() == old(self).capacity(),
            final(self).subscriber_count() == old(self).subscriber_count(),
    {
        let ghost p = payload@;
        if self.buf.len() == self.cap {
            self.buf.remove(0);
        }
        self.buf.push(payload);
        self.next_seq = self.next_seq + 1;
        self.hist = Ghost(self.hist@.push(p));
        assert(self.wf());
    }

    /// Registers a new reader, starting from the position right after the
    /// most recently published payload: a subscriber sees what is published
    /// after it joined, never history.
    pub fn subscribe(&mut self) -> (c: Cursor)
        requires
            old(self).wf(),
            old(self).subscriber_count() < u64::MAX,
        ensures
            final(self).wf(),
            final(self).history() == old(self).history(),
            final(self).capacity() == old(self).capacity(),
            final(self).subscriber_count() == old(self).subscriber_count() + 1,
            c.pos as nat == old(self).history().len(),
    {
        self.subscribers = self.subscribers + 1;
        Cursor { pos: self.next_seq }
    }

    /// Releases a subscription; the cursor is consumed and cannot leak.
    /// The history and every other reader's cursor are untouched.
    pub fn release(&mut self, c: Cursor)
        requires
            old(self).wf(),
            old(self).subscriber_count() >= 1,
        ensures
            final(self).wf(),
            final(self).history() == old(self).history(),
            final(self).capacity() == old(self).capacity(),
            final(self).subscriber_count() == old(self).subscriber_count() - 1,
    {
        let Cursor { pos: _ } = c;
        self.subscribers = self.subscribers - 1;
    }

    /// How many payloads have ever been published.
    pub fn published_count(&self) -> (n: u64)
        requires
            self.wf(),
        ensures
            n as nat == self.history().len(),
    {
        self.next_seq
    }

    /// How many subscriptions are currently registered.
    pub fn reader_count(&self) -> (n: u64)
        ensures
            n as nat == self.subscriber_count(),
    {
        self.subscribers
    }

    /// One read attempt for the reader behind `c`: the next unread payload
    /// if it is still in the ring, a lag indication (with the cursor forced
    /// forward to the oldest retained payload) if the reader fell behind,
    /// or `Pending` if nothing new has been published. Takes the channel
    /// immutably: a read never disturbs the producer or another reader.
    pub fn try_next(&self, c: &mut Cursor) -> (r: RecvOutcome)
        requires
            self.wf(),
            old(c).pos as nat <= self.history().len(),
        ensures
            final(c).pos as nat == next_pos(self.history(), self.capacity(), old(c).pos as nat),
            final(c).pos as nat <= self.history().len(),
            match r {
                RecvOutcome::Message(m) => recv_model(
                    self.history(),
                    self.capacity(),
                    old(c).pos as nat,
                ) == RecvModel::Delivered(m@),
                RecvOutcome::Lagged(n) => recv_model(
                    self.history(),
                    self.capacity(),
                    old(c).pos as nat,
                ) == RecvModel::Lagged(n as nat),
                RecvOutcome::Pending => recv_model(
                    self.history(),
                    self.capacity(),
                    old(c).pos as nat,
                ) == RecvModel::Idle,
            },
    {
        let oldest: u64 = self.next_seq - (self.buf.len() as u64);
        if c.pos == self.next_seq {
            RecvOutcome::Pending
        } else if c.pos >= oldest {
            let idx: usize = (c.pos - oldest) as usize;
            let m = self.buf[idx].clone();
            assert(m@ =~= self.buf@[idx as int]@);
            c.pos = c.pos + 1;
            RecvOutcome::Message(m)
        } else {
            let skipped: u64 = oldest - c.pos;
            c.pos = oldest;
            RecvOutcome::Lagged(skipped)
        }
    }
}

/// A reader that has fallen behind the ring is never silently stuck: its
/// one read attempt reports the lag, with exactly the number of payloads
/// skipped, and its very next read attempt delivers the oldest payload the
/// ring still holds. One gap, one lag indication, then delivery resumes.
pub proof fn lemma_lag_then_delivery(hist: Seq<Seq<u8>>, cap: nat, pos: nat)
    requires
        cap >= 1,
        pos < oldest_retained(hist.len(), cap),
    ensures
        recv_model(hist, cap, pos) == RecvModel::Lagged(
            (oldest_retained(hist.len(), cap) - pos) as nat,
        ),
        next_pos(hist, cap, pos) == oldest_retained(hist.len(), cap),
        recv_model(hist, cap, next_pos(hist, cap, pos)) == RecvModel::Delivered(
            hist[oldest_retained(hist.len(), cap) as int],
        ),
{
}

/// What each of a set of readers observes on its next read attempt, each
/// through its own cursor.
pub open spec fn outcomes(hist: Seq<Seq<u8>>, cap: nat, cursors: Seq<nat>) -> Seq<RecvModel> {
    cursors.map(|i: int, p: nat| recv_model(hist, cap, p))
}

/// Disconnecting one reader does not affect delivery to any other: drop any
/// one cursor and every remaining reader observes exactly what it would
/// have observed with the departed reader still present.
pub proof fn lemma_session_isolation(hist: Seq<Seq<u8>>, cap: nat, cursors: Seq<nat>, j: int)
    requires
        0 <= j < cursors.len(),
    ensures
        outcomes(hist, cap, cursors.remove(j)) == outcomes(hist, cap, cursors).remove(j),
{
    assert(outcomes(hist, cap, cursors.remove(j)) =~= outcomes(hist, cap, cursors).remove(j));
}

} // verus!
