use crate::broadcast::Broadcaster;
use crate::json::snapshot_json;
use crate::json::snapshot_json_bytes;
use crate::record::{FetchError, Record, RecordView, views};
use vstd::prelude::*;

verus! {

// The change watcher: the single long-lived producer of the pipeline. It
// owns the subscription to the collection's mutation notifications; on each
// notification (and once unconditionally right after the subscription is
// established, to seed initial observers) it has the current snapshot
// fetched and publishes the serialized payload. Fetching and waiting are
// I/O and live with the caller; every decision the watcher takes, and what
// each decision does to the broadcast history, is here.

/// The watcher's lifecycle.
pub enum WatcherState {
    /// The notification subscription is not established yet.
    Starting,
    /// Blocked on the next mutation notification.
    Watching,
    /// A snapshot fetch is in flight.
    Refetching,
    /// The notification sequence has terminated; no further snapshots will
    /// be produced. Connected sessions stay connected but see no updates.
    Stopped,
}

/// The one unrecoverable error: without a notification subscription the
/// process cannot serve meaningful data.
#[derive(Debug)]
pub enum WatchError {
    SubscriptionSetupFailure,
}

/// What the watcher observed while waiting for a notification.
pub enum NoteEvent {
    /// The collection changed; the payload of the notification is
    /// irrelevant, it is a trigger, not a diff.
    Changed,
    /// The subscription reported a per-event error. Recoverable: the
    /// watcher keeps consuming.
    StreamError,
}

/// What the caller must do next after handing the watcher a notification.
pub enum NoteAction {
    /// Fetch the current snapshot and report back with `on_fetch_result`.
    Refetch,
    /// Log and keep waiting for the next notification.
    KeepWatching,
}

/// The net effect of one notification cycle, for reasoning about runs of
/// the watcher: either the notification itself erred, or the fetch failed,
/// or a snapshot of these records was fetched and published.
pub enum CycleOutcome {
    NoteError,
    FetchFailed,
    FetchOk(Seq<RecordView>),
}

/// What one cycle publishes: exactly one payload on a successful fetch,
/// nothing otherwise.
pub open spec fn cycle_published(ev: CycleOutcome) -> Seq<Seq<u8>> {
    match ev {
        CycleOutcome::FetchOk(rs) => seq![snapshot_json(rs)],
        _ => Seq::empty(),
    }
}

/// One cycle's effect on the broadcast history.
pub open spec fn cycle_hist(hist: Seq<Seq<u8>>, ev: CycleOutcome) -> Seq<Seq<u8>> {
    hist + cycle_published(ev)
}

/// The broadcast history after the watcher has worked through a sequence
/// of notification cycles, in arrival order.
pub open spec fn run_hist(hist: Seq<Seq<u8>>, evs: Seq<CycleOutcome>) -> Seq<Seq<u8>>
    decreases evs.len(),
{
    if evs.len() == 0 {
        hist
    } else {
        cycle_hist(run_hist(hist, evs.drop_last()), evs.last())
    }
}

/// Everything a sequence of cycles publishes, in arrival order.
pub open spec fn published_of(evs: Seq<CycleOutcome>) -> Seq<Seq<u8>>
    decreases evs.len(),
{
    if evs.len() == 0 {
        Seq::empty()
    } else {
        published_of(evs.drop_last()) + cycle_published(evs.last())
    }
}

/// For every sequence of notification cycles delivered to the watcher, the
/// successful snapshot fetches are published in exactly the relative order
/// the notifications arrived: the history ends up extended by their
/// payloads, in arrival order, with nothing reordered, dropped or added.
pub proof fn lemma_publish_order(hist: Seq<Seq<u8>>, evs: Seq<CycleOutcome>)
    ensures
        run_hist(hist, evs) == hist + published_of(evs),
    decreases evs.len(),
{
    if evs.len() == 0 {
        assert(run_hist(hist, evs) =~= hist + published_of(evs));
    } else {
        lemma_publish_order(hist, evs.drop_last());
        assert(run_hist(hist, evs) =~= hist + published_of(evs));
    }
}

/// The cycle outcome that a fetch result amounts to.
pub open spec fn fetch_cycle(r: Result<Vec<Record>, FetchError>) -> CycleOutcome {
    match r {
        Ok(recs) => CycleOutcome::FetchOk(views(recs@)),
        Err(_) => CycleOutcome::FetchFailed,
    }
}

/// The change watcher's state machine.
pub struct Watcher {
    pub state: WatcherState,
}

impl Watcher {
    /// A watcher begins with no subscription.
    pub fn new() -> (w: Watcher)
        ensures
            w.state == WatcherState::Starting,
    {
        Watcher { state: WatcherState::Starting }
    }

    /// Outcome of opening the notification subscription. Failure is fatal:
    /// the watcher stops for good and reports the one unrecoverable error.
    /// Success moves straight to `Refetching`: the startup seed, so that
    /// observers get a current snapshot before any mutation occurs.
    pub fn on_subscription(&mut self, ok: bool) -> (r: Result<(), WatchError>)
        requires
            old(self).state == WatcherState::Starting,
        ensures
            ok ==> final(self).state == WatcherState::Refetching && r is Ok,
            !ok ==> final(self).state == WatcherState::Stopped && (r matches Err(
                WatchError::SubscriptionSetupFailure,
            )),
    {
        if ok {
            self.state = WatcherState::Refetching;
            Ok(())
        } else {
            self.state = WatcherState::Stopped;
            Err(WatchError::SubscriptionSetupFailure)
        }
    }

    /// One notification consumed from the sequence. A change triggers a
    /// refetch; a per-event stream error is logged by the caller and the
    /// watcher keeps consuming. Nothing is published here, so a cycle that
    /// ends in a stream error contributes nothing to the history.
    pub fn on_notification(&mut self, ev: NoteEvent) -> (a: NoteAction)
        requires
            old(self).state == WatcherState::Watching,
        ensures
            ev == NoteEvent::Changed ==> final(self).state == WatcherState::Refetching && a
                == NoteAction::Refetch,
            ev == NoteEvent::StreamError ==> final(self).state == WatcherState::Watching && a
                == NoteAction::KeepWatching,
    {
        match ev {
            NoteEvent::Changed => {
                self.state = WatcherState::Refetching;
                NoteAction::Refetch
            },
            NoteEvent::StreamError => NoteAction::KeepWatching,
        }
    }

    /// The fetch the watcher asked for has completed. On success the
    /// snapshot is serialized and published — the history grows by exactly
    /// that payload; on failure this cycle is skipped and the history is
    /// untouched. Either way the watcher goes back to waiting: a fetch
    /// failure never stops the pipeline.
    pub fn on_fetch_result(&mut self, b: &mut Broadcaster, r: Result<Vec<Record>, FetchError>)
        requires
            old(self).state == WatcherState::Refetching,
            old(b).wf(),
            old(b).history().len() < u64::MAX,
        ensures
            final(self).state == WatcherState::Watching,
            final(b).wf(),
            final(b).capacity() == old(b).capacity(),
            final(b).subscriber_count() == old(b).subscriber_count(),
            final(b).history() == cycle_hist(old(b).history(), fetch_cycle(r)),
            (r matches Ok(recs) ==> final(b).history() == old(b).history().push(
                snapshot_json(views(recs@)),
            )),
            r is Err ==> final(b).history() == old(b).history(),
    {
        match r {
            Ok(recs) => {
                let payload = snapshot_json_bytes(&recs);
                b.publish(payload);
                assert(b.history() =~= cycle_hist(old(b).history(), fetch_cycle(r)));
            },
            Err(_) => {
                assert(b.history() =~= cycle_hist(old(b).history(), fetch_cycle(r)));
            },
        }
        self.state = WatcherState::Watching;
    }

    /// The notification sequence has terminated entirely. The watcher
    /// stops producing; a known degradation, not a crash.
    pub fn on_stream_end(&mut self)
        requires
            old(self).state == WatcherState::Watching,
        ensures
            final(self).state == WatcherState::Stopped,
    {
        self.state = WatcherState::Stopped;
    }
}

} // verus!
