use snapsync::broadcast::Broadcaster;
use snapsync::record::{FetchError, Record};
use snapsync::session::{Session, StreamItem, keep_alive_payload};
use snapsync::watcher::{NoteAction, NoteEvent, WatchError, Watcher, WatcherState};

fn rec(email: &[u8], password: &[u8]) -> Record {
    Record { email: email.to_vec(), password: password.to_vec() }
}

fn expect_data(item: Option<StreamItem>) -> Vec<u8> {
    match item {
        Some(StreamItem::Data(p)) => p,
        _ => panic!("expected a data payload"),
    }
}

#[test]
fn subscription_failure_is_fatal() {
    let mut w = Watcher::new();
    assert!(matches!(w.state, WatcherState::Starting));
    let r = w.on_subscription(false);
    assert!(matches!(r, Err(WatchError::SubscriptionSetupFailure)));
    assert!(matches!(w.state, WatcherState::Stopped));
}

#[test]
fn startup_seeds_before_any_mutation() {
    let mut b = Broadcaster::new(8);
    let mut w = Watcher::new();
    assert!(w.on_subscription(true).is_ok());
    // The unconditional startup refetch, before any notification.
    assert!(matches!(w.state, WatcherState::Refetching));
    w.on_fetch_result(&mut b, Ok(vec![]));
    assert!(matches!(w.state, WatcherState::Watching));
    let mut c = b.subscribe();
    b.publish(b"x".to_vec());
    // The seed payload went out before this subscriber joined; only the
    // later publish is delivered to it.
    assert!(matches!(
        b.try_next(&mut c),
        snapsync::broadcast::RecvOutcome::Message(_)
    ));
}

#[test]
fn stream_error_keeps_watching() {
    let mut b = Broadcaster::new(8);
    let mut w = Watcher::new();
    w.on_subscription(true).unwrap();
    w.on_fetch_result(&mut b, Ok(vec![]));
    let a = w.on_notification(NoteEvent::StreamError);
    assert!(matches!(a, NoteAction::KeepWatching));
    assert!(matches!(w.state, WatcherState::Watching));
    // The next real notification still triggers a refetch.
    let a = w.on_notification(NoteEvent::Changed);
    assert!(matches!(a, NoteAction::Refetch));
    assert!(matches!(w.state, WatcherState::Refetching));
}

#[test]
fn stream_end_stops_the_watcher() {
    let mut w = Watcher::new();
    w.on_subscription(true).unwrap();
    let mut b = Broadcaster::new(8);
    w.on_fetch_result(&mut b, Ok(vec![]));
    w.on_stream_end();
    assert!(matches!(w.state, WatcherState::Stopped));
}

#[test]
fn new_session_gets_snapshot_immediately() {
    // Even with no mutation since startup and an empty channel, a new
    // session's first item is a full snapshot.
    let mut b = Broadcaster::new(8);
    let (mut s, first) = Session::connect(&mut b, Ok(vec![rec(b"a@x", b"p")]));
    match first {
        StreamItem::Data(p) => {
            assert_eq!(p, b"[{\"email\":\"a@x\",\"password\":\"p\"}]".to_vec())
        }
        _ => panic!("expected an immediate snapshot"),
    }
    // Nothing was broadcast yet, so the stream itself is quiet.
    assert!(s.poll(&b).is_none());
}

#[test]
fn failed_initial_fetch_reports_error_payload() {
    let mut b = Broadcaster::new(8);
    let (_s, first) = Session::connect(&mut b, Err(FetchError::StorageUnavailable));
    match first {
        StreamItem::ErrorText(t) => assert_eq!(t, b"Error fetching snapshot".to_vec()),
        _ => panic!("expected an explicit error payload"),
    }
}

#[test]
fn inserted_record_reaches_all_observers() {
    let mut b = Broadcaster::new(8);
    let mut w = Watcher::new();
    w.on_subscription(true).unwrap();
    w.on_fetch_result(&mut b, Ok(vec![]));

    let (mut alice, _) = Session::connect(&mut b, Ok(vec![]));
    let (mut bob, _) = Session::connect(&mut b, Ok(vec![]));

    // A record appears; one notification cycle later every connected
    // observer holds exactly the new full state.
    assert!(matches!(w.on_notification(NoteEvent::Changed), NoteAction::Refetch));
    w.on_fetch_result(&mut b, Ok(vec![rec(b"new@x", b"pw")]));

    let expected = b"[{\"email\":\"new@x\",\"password\":\"pw\"}]".to_vec();
    assert_eq!(expect_data(alice.poll(&b)), expected);
    assert_eq!(expect_data(bob.poll(&b)), expected);
}

#[test]
fn failed_fetch_skips_cycle_then_full_state_follows() {
    let mut b = Broadcaster::new(8);
    let mut w = Watcher::new();
    w.on_subscription(true).unwrap();
    w.on_fetch_result(&mut b, Ok(vec![]));
    let (mut s, _) = Session::connect(&mut b, Ok(vec![]));

    // A transient storage failure: nothing is broadcast for this cycle.
    w.on_notification(NoteEvent::Changed);
    w.on_fetch_result(&mut b, Err(FetchError::StorageUnavailable));
    assert!(s.poll(&b).is_none());

    // The next successful cycle carries the then-current full state, not
    // a diff.
    w.on_notification(NoteEvent::Changed);
    w.on_fetch_result(&mut b, Ok(vec![rec(b"a@x", b"1"), rec(b"b@x", b"2")]));
    let expected =
        b"[{\"email\":\"a@x\",\"password\":\"1\"},{\"email\":\"b@x\",\"password\":\"2\"}]".to_vec();
    assert_eq!(expect_data(s.poll(&b)), expected);
}

#[test]
fn late_joiner_converges_without_backfill() {
    let mut b = Broadcaster::new(8);
    let mut w = Watcher::new();
    w.on_subscription(true).unwrap();
    w.on_fetch_result(&mut b, Ok(vec![]));

    let (mut alice, _) = Session::connect(&mut b, Ok(vec![]));
    w.on_notification(NoteEvent::Changed);
    w.on_fetch_result(&mut b, Ok(vec![rec(b"early@x", b"1")]));
    assert!(alice.poll(&b).is_some());

    // Bob joins later: the earlier broadcast is never backfilled ...
    let current = vec![rec(b"early@x", b"1")];
    let (mut bob, _) = Session::connect(&mut b, Ok(current));
    assert!(bob.poll(&b).is_none());

    // ... but on the next cycle both observers converge on the same
    // latest snapshot.
    w.on_notification(NoteEvent::Changed);
    w.on_fetch_result(&mut b, Ok(vec![rec(b"early@x", b"1"), rec(b"late@x", b"2")]));
    let a = expect_data(alice.poll(&b));
    let bb = expect_data(bob.poll(&b));
    assert_eq!(a, bb);
}

#[test]
fn lagged_session_is_told_and_resumes() {
    let mut b = Broadcaster::new(2);
    let (mut s, _) = Session::connect(&mut b, Ok(vec![]));
    for n in 0..5u8 {
        b.publish(vec![n]);
    }
    match s.poll(&b) {
        Some(StreamItem::ErrorText(t)) => assert_eq!(t, b"Error receiving message".to_vec()),
        _ => panic!("expected the lag error payload"),
    }
    assert_eq!(expect_data(s.poll(&b)), vec![3u8]);
    assert_eq!(expect_data(s.poll(&b)), vec![4u8]);
    assert!(s.poll(&b).is_none());
}

#[test]
fn disconnect_leaves_other_sessions_delivering() {
    let mut b = Broadcaster::new(8);
    let (gone, _) = Session::connect(&mut b, Ok(vec![]));
    let (mut stay, _) = Session::connect(&mut b, Ok(vec![]));
    gone.disconnect(&mut b);
    b.publish(b"after".to_vec());
    assert_eq!(expect_data(stay.poll(&b)), b"after".to_vec());
}

#[test]
fn keep_alive_marker_is_fixed() {
    assert_eq!(keep_alive_payload(), b"keep-alive-text".to_vec());
    let mut b = Broadcaster::new(2);
    let (s, _) = Session::connect(&mut b, Ok(vec![]));
    match s.on_tick() {
        StreamItem::KeepAlive(t) => assert_eq!(t, b"keep-alive-text".to_vec()),
        _ => panic!("expected the keep-alive marker"),
    }
}
