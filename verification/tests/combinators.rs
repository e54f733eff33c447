//! The stream combinators, driven through feeds the way the asynchronous
//! layer would drive them.

use mpris_dbus::feed::Feed;
use mpris_dbus::feed::PollNext;
use mpris_dbus::util::with_initial_value;
use mpris_dbus::util::FilterNoChange;
use mpris_dbus::util::FlattenNewest;

#[test]
fn poll_both() {
    let mut s = mpris_dbus::util::poll_both::<u8, i8>(Feed::new(), Feed::new());
    assert!(
        matches!(s.poll_next(), PollNext::Pending),
        "both streams empty"
    );
    s.push_left(255);
    assert_eq!(
        PollNext::Item((Some(255), None)),
        s.poll_next(),
        "streams partially filled"
    );
    assert!(matches!(s.poll_next(), PollNext::Pending), "already polled");
    s.push_right(-1);
    assert_eq!(
        PollNext::Item((Some(255), Some(-1))),
        s.poll_next(),
        "streams filled"
    );
    assert!(matches!(s.poll_next(), PollNext::Pending), "already polled");
    s.push_left(244);
    assert_eq!(
        PollNext::Item((Some(244), Some(-1))),
        s.poll_next(),
        "value changed 1"
    );
    assert!(matches!(s.poll_next(), PollNext::Pending), "already polled");
    s.push_right(-2);
    assert_eq!(
        PollNext::Item((Some(244), Some(-2))),
        s.poll_next(),
        "value changed 2"
    );
    assert!(matches!(s.poll_next(), PollNext::Pending), "already polled");
    s.close_left();
    assert!(matches!(s.poll_next(), PollNext::Closed), "stream 1 closed");

    let mut s = mpris_dbus::util::poll_both::<u8, i8>(Feed::new(), Feed::new());
    assert!(
        matches!(s.poll_next(), PollNext::Pending),
        "both streams empty"
    );
    s.push_right(-1);
    assert_eq!(
        PollNext::Item((None, Some(-1))),
        s.poll_next(),
        "streams partially filled"
    );
    assert!(matches!(s.poll_next(), PollNext::Pending), "already polled");
    s.push_left(255);
    assert_eq!(
        PollNext::Item((Some(255), Some(-1))),
        s.poll_next(),
        "streams filled"
    );
    assert!(matches!(s.poll_next(), PollNext::Pending), "already polled");
    s.close_right();
    assert!(matches!(s.poll_next(), PollNext::Closed), "stream 2 closed");
}

#[test]
fn filter_no_change() {
    let mut feed: Feed<u8> = Feed::new();
    feed.push(1);
    feed.push(1);
    feed.close();
    let mut stream = FilterNoChange::new(feed);
    assert_eq!(
        PollNext::Item(1),
        stream.poll_next(),
        "first value missing"
    );
    assert_eq!(
        PollNext::Closed,
        stream.poll_next(),
        "second value should have been dropped"
    );
}

#[test]
fn filter_no_change_collapses_adjacent_duplicates() {
    let mut feed: Feed<u8> = Feed::new();
    for v in [1u8, 1, 2, 2, 1] {
        feed.push(v);
    }
    feed.close();
    let mut stream = FilterNoChange::new(feed);
    let mut out: Vec<u8> = Vec::new();
    loop {
        match stream.poll_next() {
            PollNext::Item(v) => out.push(v),
            PollNext::Pending => panic!("a queued item must not leave the stream pending"),
            PollNext::Closed => break,
        }
    }
    assert_eq!(vec![1u8, 2, 1], out);
}

#[test]
fn filter_no_change_suppression_changes_nothing() {
    // Feeding a value equal to the previously emitted one never changes
    // the observable output.
    let mut plain: Feed<u8> = Feed::new();
    let mut doubled: Feed<u8> = Feed::new();
    for v in [3u8, 4, 5] {
        plain.push(v);
        doubled.push(v);
        doubled.push(v);
    }
    plain.close();
    doubled.close();
    let mut lhs = FilterNoChange::new(plain);
    let mut rhs = FilterNoChange::new(doubled);
    loop {
        let a = lhs.poll_next();
        let b = rhs.poll_next();
        assert_eq!(a, b);
        if matches!(a, PollNext::Closed) {
            break;
        }
    }
}

#[test]
fn poll_both_fail_fast() {
    // S1 emits once and closes while S2 never emits: one pair comes out,
    // then the combined stream ends, although S2 could still deliver.
    let mut s = mpris_dbus::util::poll_both::<u8, i8>(Feed::new(), Feed::new());
    s.push_left(7);
    assert_eq!(PollNext::Item((Some(7), None)), s.poll_next());
    s.close_left();
    assert_eq!(PollNext::Closed, s.poll_next());
    assert_eq!(PollNext::Closed, s.poll_next());
}

#[test]
fn with_initial_value_goes_first() {
    let mut feed: Feed<u8> = Feed::new();
    feed.push(5);
    let mut stream = with_initial_value(9u8, feed);
    assert_eq!(
        PollNext::Item(9),
        stream.poll_next(),
        "the initial value must come first even when the source has items"
    );
    assert_eq!(PollNext::Item(5), stream.poll_next());
    assert!(matches!(stream.poll_next(), PollNext::Pending));
    stream.offer(6);
    assert_eq!(PollNext::Item(6), stream.poll_next());
    stream.close_input();
    assert_eq!(PollNext::Closed, stream.poll_next());
}

#[test]
fn flatten_newest_switches_to_newest() {
    // The outer stream yields inner stream A (which would deliver a value
    // later) and then inner stream B; once B arrives, A's pending value is
    // never observed.
    let mut a: Feed<u8> = Feed::new();
    a.push(1);
    let mut flat = FlattenNewest::new(Feed::new());
    flat.push_stream(a);
    assert_eq!(PollNext::Item(1), flat.poll_next(), "A plays while newest");
    assert!(matches!(flat.poll_next(), PollNext::Pending));

    let mut b: Feed<u8> = Feed::new();
    b.push(2);
    flat.push_stream(b);
    assert_eq!(
        PollNext::Item(2),
        flat.poll_next(),
        "B replaces A the moment it arrives"
    );
    assert!(matches!(flat.poll_next(), PollNext::Pending));
    flat.close_outer();
    assert!(
        matches!(flat.poll_next(), PollNext::Pending),
        "the live inner stream keeps the flattened stream open"
    );
}

#[test]
fn flatten_newest_drains_exhausted_inner_in_one_poll() {
    // When the current inner stream closes, the next inner stream is
    // picked up within the same poll.
    let mut a: Feed<u8> = Feed::new();
    a.push(1);
    a.close();
    let mut b: Feed<u8> = Feed::new();
    b.push(2);
    let mut flat = FlattenNewest::new(Feed::new());
    flat.push_stream(a);
    assert_eq!(PollNext::Item(1), flat.poll_next());
    flat.push_stream(b);
    assert_eq!(PollNext::Item(2), flat.poll_next());
    flat.close_outer();
    assert!(matches!(flat.poll_next(), PollNext::Pending));
}

#[test]
fn flatten_newest_closes_after_outer_and_inner() {
    let mut only: Feed<u8> = Feed::new();
    only.push(3);
    only.close();
    let mut flat = FlattenNewest::new(Feed::new());
    flat.push_stream(only);
    flat.close_outer();
    assert_eq!(PollNext::Item(3), flat.poll_next());
    assert_eq!(
        PollNext::Closed,
        flat.poll_next(),
        "outer exhausted and the last inner stream drained"
    );
}

#[test]
fn poll_both_combines_same_turn_advances_into_one_pair() {
    // Both sides advance before the next poll: one combined pair comes
    // out, not two.
    let mut s = mpris_dbus::util::poll_both::<u8, i8>(Feed::new(), Feed::new());
    s.push_left(1);
    s.push_right(-1);
    assert_eq!(PollNext::Item((Some(1), Some(-1))), s.poll_next());
    assert!(matches!(s.poll_next(), PollNext::Pending));
}
