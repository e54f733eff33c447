//! The fold-aggregator and the per-player snapshot pipeline.

use mpris_dbus::error::Error;
use mpris_dbus::feed::Feed;
use mpris_dbus::feed::PollNext;
use mpris_dbus::player_info::player_info;
use mpris_dbus::player_info::FoldMap;
use mpris_dbus::player_info::InitialProperties;
use mpris_dbus::player_info::MetaValue;
use mpris_dbus::player_info::Metadata;
use mpris_dbus::player_info::PlayerInfo;
use mpris_dbus::player_info::PlayerInfoUpdate;
use mpris_dbus::player_info::PropertyFeeds;
use mpris_dbus::property::ChangeEvent;
use mpris_dbus::property::Fetch;
use mpris_dbus::proxies::LoopStatus;
use mpris_dbus::proxies::PlaybackStatus;

fn base_info() -> PlayerInfo {
    PlayerInfo {
        playback_status: PlaybackStatus::Paused,
        loop_status: None,
        shuffle: None,
        metadata: Vec::new(),
        can_go_next: false,
        can_go_previous: false,
        can_play: false,
        can_pause: false,
    }
}

fn sample_metadata() -> Metadata {
    vec![
        (
            "xesam:artist".to_string(),
            MetaValue::Text("Someone".to_string()),
        ),
        (
            "xesam:title".to_string(),
            MetaValue::Text("A Song".to_string()),
        ),
    ]
}

fn ok_initial() -> InitialProperties {
    InitialProperties {
        playback_status: Ok(PlaybackStatus::Playing),
        loop_status: Ok(LoopStatus::NoLoop),
        shuffle: Ok(false),
        metadata: Ok(sample_metadata()),
        can_go_next: Ok(true),
        can_go_previous: Ok(false),
        can_play: Ok(true),
        can_pause: Ok(true),
    }
}

#[test]
fn fold_map_updates_one_field_per_event() {
    let mut events: Feed<Result<PlayerInfoUpdate, Error>> = Feed::new();
    events.push(Ok(PlayerInfoUpdate::Nothing));
    events.push(Ok(PlayerInfoUpdate::PlaybackStatus(PlaybackStatus::Playing)));
    events.push(Ok(PlayerInfoUpdate::Shuffle(true)));
    let mut fold = FoldMap::new(base_info(), events);

    let first = match fold.poll_next() {
        PollNext::Item(Ok(info)) => info,
        other => panic!("expected the initial snapshot, got {:?}", other),
    };
    assert_eq!(PlaybackStatus::Paused, first.playback_status);
    assert_eq!(None, first.shuffle);

    let second = match fold.poll_next() {
        PollNext::Item(Ok(info)) => info,
        other => panic!("expected a snapshot, got {:?}", other),
    };
    assert_eq!(PlaybackStatus::Playing, second.playback_status);
    assert_eq!(None, second.shuffle, "only the named field may change");

    let third = match fold.poll_next() {
        PollNext::Item(Ok(info)) => info,
        other => panic!("expected a snapshot, got {:?}", other),
    };
    assert_eq!(PlaybackStatus::Playing, third.playback_status);
    assert_eq!(Some(true), third.shuffle);
}

#[test]
fn fold_map_reports_errors_without_touching_the_snapshot() {
    let mut events: Feed<Result<PlayerInfoUpdate, Error>> = Feed::new();
    events.push(Ok(PlayerInfoUpdate::CanPlay(true)));
    events.push(Err(Error::Transport("socket gone".to_string())));
    events.push(Ok(PlayerInfoUpdate::Nothing));
    let mut fold = FoldMap::new(base_info(), events);

    assert!(matches!(fold.poll_next(), PollNext::Item(Ok(_))));
    match fold.poll_next() {
        PollNext::Item(Err(Error::Transport(m))) => assert_eq!("socket gone", m),
        other => panic!("expected the standalone error item, got {:?}", other),
    }
    let after = match fold.poll_next() {
        PollNext::Item(Ok(info)) => info,
        other => panic!("expected a snapshot, got {:?}", other),
    };
    assert!(after.can_play, "the failure must not roll back the snapshot");
    assert!(matches!(fold.poll_next(), PollNext::Pending));
}

#[test]
fn player_info_emits_initial_snapshot_first() {
    let mut stream = player_info(ok_initial(), PropertyFeeds::open_feeds()).unwrap();
    let first = match stream.poll_next() {
        PollNext::Item(Ok(info)) => info,
        other => panic!("expected the initial snapshot, got {:?}", other),
    };
    assert_eq!(PlaybackStatus::Playing, first.playback_status);
    assert_eq!(Some(LoopStatus::NoLoop), first.loop_status);
    assert_eq!(Some(false), first.shuffle);
    assert!(first.can_go_next);
    assert!(!first.can_go_previous);
    assert!(matches!(stream.poll_next(), PollNext::Pending));
}

#[test]
fn player_info_requires_the_required_fetches() {
    let mut initial = ok_initial();
    initial.metadata = Err(Error::Transport("no reply".to_string()));
    match player_info(initial, PropertyFeeds::open_feeds()) {
        Err(Error::Transport(m)) => assert_eq!("no reply", m),
        other => panic!("expected the metadata failure, got {:?}", other.is_ok()),
    }
}

#[test]
fn player_info_excludes_unsupported_optional_properties() {
    let mut initial = ok_initial();
    initial.loop_status = Err(Error::Unsupported);
    let mut stream = player_info(initial, PropertyFeeds::open_feeds()).unwrap();
    let first = match stream.poll_next() {
        PollNext::Item(Ok(info)) => info,
        other => panic!("expected the initial snapshot, got {:?}", other),
    };
    assert_eq!(
        None, first.loop_status,
        "an unsupported optional property stays absent"
    );
    // A late notification for the excluded property is dropped rather
    // than erroring repeatedly.
    stream.notify_loop_status(ChangeEvent::new(Fetch::ready(Ok(LoopStatus::Track))));
    assert!(matches!(stream.poll_next(), PollNext::Pending));
}

#[test]
fn player_info_resolves_change_notifications_in_order() {
    let mut stream = player_info(ok_initial(), PropertyFeeds::open_feeds()).unwrap();
    assert!(matches!(stream.poll_next(), PollNext::Item(Ok(_))));

    stream.notify_shuffle(ChangeEvent::new(Fetch::after(1, Ok(true))));
    assert!(
        matches!(stream.poll_next(), PollNext::Pending),
        "the fetch is still in flight"
    );
    let updated = match stream.poll_next() {
        PollNext::Item(Ok(info)) => info,
        other => panic!("expected the shuffle snapshot, got {:?}", other),
    };
    assert_eq!(Some(true), updated.shuffle);
    assert_eq!(PlaybackStatus::Playing, updated.playback_status);
}

#[test]
fn player_info_deduplicates_equal_snapshots() {
    let mut stream = player_info(ok_initial(), PropertyFeeds::open_feeds()).unwrap();
    assert!(matches!(stream.poll_next(), PollNext::Item(Ok(_))));
    // The playback status is already `Playing`: the refreshed snapshot
    // equals the previous one and is suppressed.
    stream.notify_playback_status(ChangeEvent::new(Fetch::ready(Ok(PlaybackStatus::Playing))));
    assert!(matches!(stream.poll_next(), PollNext::Pending));
    // A real change passes.
    stream.notify_playback_status(ChangeEvent::new(Fetch::ready(Ok(PlaybackStatus::Paused))));
    match stream.poll_next() {
        PollNext::Item(Ok(info)) => assert_eq!(PlaybackStatus::Paused, info.playback_status),
        other => panic!("expected the paused snapshot, got {:?}", other),
    }
}

#[test]
fn player_info_reports_fetch_failures_and_recovers() {
    let mut stream = player_info(ok_initial(), PropertyFeeds::open_feeds()).unwrap();
    assert!(matches!(stream.poll_next(), PollNext::Item(Ok(_))));
    stream.notify_can_pause(ChangeEvent::new(Fetch::ready(Err(Error::Decode(
        "not a boolean".to_string(),
    )))));
    match stream.poll_next() {
        PollNext::Item(Err(Error::Decode(m))) => assert_eq!("not a boolean", m),
        other => panic!("expected the decode failure, got {:?}", other),
    }
    stream.notify_can_pause(ChangeEvent::new(Fetch::ready(Ok(false))));
    match stream.poll_next() {
        PollNext::Item(Ok(info)) => {
            assert!(!info.can_pause);
            assert!(info.can_play, "the failure must not corrupt other fields");
        },
        other => panic!("expected the recovered snapshot, got {:?}", other),
    }
}

#[test]
fn player_info_closes_after_teardown() {
    let mut stream = player_info(ok_initial(), PropertyFeeds::open_feeds()).unwrap();
    assert!(matches!(stream.poll_next(), PollNext::Item(Ok(_))));
    stream.close_inputs();
    assert!(matches!(stream.poll_next(), PollNext::Closed));
    assert!(matches!(stream.poll_next(), PollNext::Closed));
}

#[test]
fn a_stalled_fetch_never_blocks_sibling_properties() {
    let mut stream = player_info(ok_initial(), PropertyFeeds::open_feeds()).unwrap();
    assert!(matches!(stream.poll_next(), PollNext::Item(Ok(_))));
    // The shuffle fetch stalls forever; a playback change still flows.
    stream.notify_shuffle(ChangeEvent::new(Fetch::stalled()));
    assert!(matches!(stream.poll_next(), PollNext::Pending));
    stream.notify_playback_status(ChangeEvent::new(Fetch::ready(Ok(PlaybackStatus::Stopped))));
    match stream.poll_next() {
        PollNext::Item(Ok(info)) => assert_eq!(PlaybackStatus::Stopped, info.playback_status),
        other => panic!("expected the playback snapshot, got {:?}", other),
    }
}
