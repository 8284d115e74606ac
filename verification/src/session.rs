use crate::broadcast::{Broadcaster, Cursor, RecvModel, RecvOutcome, next_pos, recv_model};
use crate::json::{snapshot_json, snapshot_json_bytes};
use crate::record::{FetchError, Record, views};
use vstd::prelude::*;

verus! {

// One connected client: a cursor into the broadcast channel plus the live
// transport handle (which stays with the caller). A session subscribes,
// immediately forwards one directly-fetched full snapshot so the client
// never sees an initial empty period, then forwards every broadcast
// payload, a textual error payload on lag, and periodic keep-alive markers,
// until the transport reports the client gone; that releases the
// subscription and the session is never recreated.

/// `keep-alive-text`, the fixed keep-alive marker.
pub open spec fn keep_alive_text() -> Seq<u8> {
    seq![
        107u8, 101u8, 101u8, 112u8, 45u8, 97u8, 108u8, 105u8, 118u8, 101u8, 45u8, 116u8, 101u8,
        120u8, 116u8,
    ]
}

/// `Error receiving message`, sent to a lagged observer so it stays
/// informed instead of silently stalling.
pub open spec fn lag_text() -> Seq<u8> {
    seq![
        69u8, 114u8, 114u8, 111u8, 114u8, 32u8, 114u8, 101u8, 99u8, 101u8, 105u8, 118u8, 105u8,
        110u8, 103u8, 32u8, 109u8, 101u8, 115u8, 115u8, 97u8, 103u8, 101u8,
    ]
}

/// `Error fetching snapshot`, sent when the initial direct fetch for a new
/// session could not complete.
pub open spec fn fetch_error_text() -> Seq<u8> {
    seq![
        69u8, 114u8, 114u8, 111u8, 114u8, 32u8, 102u8, 101u8, 116u8, 99u8, 104u8, 105u8, 110u8,
        103u8, 32u8, 115u8, 110u8, 97u8, 112u8, 115u8, 104u8, 111u8, 116u8,
    ]
}

/// One unit pushed to a client over its event stream.
pub enum StreamItem {
    /// A snapshot payload.
    Data(Vec<u8>),
    /// A plain-text error payload; the client is told rather than stalled.
    ErrorText(Vec<u8>),
    /// The periodic liveness marker.
    KeepAlive(Vec<u8>),
}

/// One connected observer: its cursor into the broadcast channel.
pub struct Session {
    pub cursor: Cursor,
}

impl Session {
    /// Opens a session for a new client connection: subscribes to the
    /// channel and produces the client's first item at once — the full
    /// current snapshot the caller just fetched directly (not waited for
    /// from the channel), or an explicit error payload if that fetch
    /// failed. Works for any channel state, mutations or none: a new
    /// observer never waits for its first item.
    pub fn connect(b: &mut Broadcaster, fetch: Result<Vec<Record>, FetchError>) -> (r: (
        Session,
        StreamItem,
    ))
        requires
            old(b).wf(),
            old(b).subscriber_count() < u64::MAX,
        ensures
            final(b).wf(),
            final(b).history() == old(b).history(),
            final(b).capacity() == old(b).capacity(),
            final(b).subscriber_count() == old(b).subscriber_count() + 1,
            r.0.cursor.pos as nat == final(b).history().len(),
            (fetch matches Ok(recs) ==> (r.1 matches StreamItem::Data(p) && p@ == snapshot_json(
                views(recs@),
            ))),
            fetch is Err ==> (r.1 matches StreamItem::ErrorText(t) && t@ == fetch_error_text()),
    {
        let cursor = b.subscribe();
        let first = match fetch {
            Ok(recs) => StreamItem::Data(snapshot_json_bytes(&recs)),
            Err(_) => StreamItem::ErrorText(fetch_error_payload()),
        };
        (Session { cursor }, first)
    }

    /// One streaming-loop step against the channel: forwards the next
    /// broadcast payload as data, a lag indication as a textual error
    /// payload, or nothing when the channel has nothing new (the caller
    /// then waits, sending keep-alives on its timer). Reads the channel
    /// immutably: polling never disturbs the producer or another reader.
    pub fn poll(&mut self, b: &Broadcaster) -> (r: Option<StreamItem>)
        requires
            b.wf(),
            old(self).cursor.pos as nat <= b.history().len(),
        ensures
            final(self).cursor.pos as nat == next_pos(
                b.history(),
                b.capacity(),
                old(self).cursor.pos as nat,
            ),
            final(self).cursor.pos as nat <= b.history().len(),
            match recv_model(b.history(), b.capacity(), old(self).cursor.pos as nat) {
                RecvModel::Delivered(m) => r matches Some(StreamItem::Data(p)) && p@ == m,
                RecvModel::Lagged(n) => r matches Some(StreamItem::ErrorText(t)) && t@
                    == lag_text(),
                RecvModel::Idle => r is None,
            },
    {
        match b.try_next(&mut self.cursor) {
            RecvOutcome::Message(m) => Some(StreamItem::Data(m)),
            RecvOutcome::Lagged(_) => Some(StreamItem::ErrorText(lag_payload())),
            RecvOutcome::Pending => None,
        }
    }

    /// The periodic timer tick: the fixed keep-alive marker, so transport
    /// idle-connection detection never fires on a quiet channel.
    pub fn on_tick(&self) -> (r: StreamItem)
        ensures
            r matches StreamItem::KeepAlive(t) && t@ == keep_alive_text(),
    {
        StreamItem::KeepAlive(keep_alive_payload())
    }

    /// The transport reported the client gone (closed or send failure):
    /// the session ends and its subscription is released, consuming the
    /// cursor. The channel's history, and so every other session, is
    /// untouched; a closed session is never retried or recreated.
    pub fn disconnect(self, b: &mut Broadcaster)
        requires
            old(b).wf(),
            old(b).subscriber_count() >= 1,
        ensures
            final(b).wf(),
            final(b).history() == old(b).history(),
            final(b).capacity() == old(b).capacity(),
            final(b).subscriber_count() == old(b).subscriber_count() - 1,
    {
        let Session { cursor } = self;
        b.release(cursor);
    }
}

/// The keep-alive marker as a payload.
pub fn keep_alive_payload() -> (r: Vec<u8>)
    ensures
        r@ == keep_alive_text(),
{
    let mut out: Vec<u8> = Vec::new();
    out.push(107);
    out.push(101);
    out.push(101);
    out.push(112);
    out.push(45);
    out.push(97);
    out.push(108);
    out.push(105);
    out.push(118);
    out.push(101);
    out.push(45);
    out.push(116);
    out.push(101);
    out.push(120);
    out.push(116);
    assert(out@ =~= keep_alive_text());
    out
}

/// The lag error text as a payload.
pub fn lag_payload() -> (r: Vec<u8>)
    ensures
        r@ == lag_text(),
{
    let mut out: Vec<u8> = Vec::new();
    out.push(69);
    out.push(114);
    out.push(114);
    out.push(111);
    out.push(114);
    out.push(32);
    out.push(114);
    out.push(101);
    out.push(99);
    out.push(101);
    out.push(105);
    out.push(118);
    out.push(105);
    out.push(110);
    out.push(103);
    out.push(32);
    out.push(109);
    out.push(101);
    out.push(115);
    out.push(115);
    out.push(97);
    out.push(103);
    out.push(101);
    assert(out@ =~= lag_text());
    out
}

/// The fetch error text as a payload.
pub fn fetch_error_payload() -> (r: Vec<u8>)
    ensures
        r@ == fetch_error_text(),
{
    let mut out: Vec<u8> = Vec::new();
    out.push(69);
    out.push(114);
    out.push(114);
    out.push(111);
    out.push(114);
    out.push(32);
    out.push(102);
    out.push(101);
    out.push(116);
    out.push(99);
    out.push(104);
    out.push(105);
    out.push(110);
    out.push(103);
    out.push(32);
    out.push(115);
    out.push(110);
    out.push(97);
    out.push(112);
    out.push(115);
    out.push(104);
    out.push(111);
    out.push(116);
    assert(out@ =~= fetch_error_text());
    out
}

} // verus!
