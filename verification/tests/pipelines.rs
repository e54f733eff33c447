//! The selection, switching and gating pipelines, end to end.

use mpris_dbus::active_player::active_players;
use mpris_dbus::active_player_info::ActivePlayerInfoStream;
use mpris_dbus::error::Error;
use mpris_dbus::feed::Feed;
use mpris_dbus::feed::PollNext;
use mpris_dbus::gate::hidden_active_player_info;
use mpris_dbus::player_info::player_info;
use mpris_dbus::player_info::InitialProperties;
use mpris_dbus::player_info::PlayerInfoStream;
use mpris_dbus::property::ChangeEvent;
use mpris_dbus::property::Fetch;
use mpris_dbus::proxies::LoopStatus;
use mpris_dbus::proxies::PlaybackStatus;

fn fresh_player(status: PlaybackStatus) -> PlayerInfoStream {
    player_info(
        InitialProperties {
            playback_status: Ok(status),
            loop_status: Ok(LoopStatus::NoLoop),
            shuffle: Ok(false),
            metadata: Ok(Vec::new()),
            can_go_next: Ok(false),
            can_go_previous: Ok(false),
            can_play: Ok(true),
            can_pause: Ok(true),
        },
        mpris_dbus::player_info::PropertyFeeds::open_feeds(),
    )
    .unwrap()
}

fn names(list: &[&str]) -> Vec<String> {
    list.iter().map(|s| s.to_string()).collect()
}

#[test]
fn active_players_seeds_and_deduplicates() {
    let mut selections = active_players(Ok(names(&["mpv"])), Feed::new());
    match selections.poll_next() {
        PollNext::Item(Ok(list)) => assert_eq!(names(&["mpv"]), list),
        other => panic!("expected the seeded selection, got {:?}", other),
    }
    // The same list fetched again is suppressed.
    selections.notify(ChangeEvent::new(Fetch::ready(Ok(names(&["mpv"])))));
    assert!(matches!(selections.poll_next(), PollNext::Pending));
    // A different list passes.
    selections.notify(ChangeEvent::new(Fetch::ready(Ok(names(&["vlc", "mpv"])))));
    match selections.poll_next() {
        PollNext::Item(Ok(list)) => assert_eq!(names(&["vlc", "mpv"]), list),
        other => panic!("expected the new selection, got {:?}", other),
    }
}

#[test]
fn switching_follows_the_newest_selection() {
    let selections = active_players(Ok(names(&["mpv"])), Feed::new());
    let mut info = ActivePlayerInfoStream::new(selections);
    // The seeded selection asks for mpv's pipeline.
    assert!(matches!(info.poll_next(), PollNext::Pending));
    assert!(info.has_requested());
    info.attach(fresh_player(PlaybackStatus::Playing));
    match info.poll_next() {
        PollNext::Item(Some(Ok((list, snapshot)))) => {
            assert_eq!(names(&["mpv"]), list);
            assert_eq!(PlaybackStatus::Playing, snapshot.playback_status);
        },
        other => panic!("expected mpv's snapshot, got {:?}", other),
    }
    // A new selection arrives: the old pipeline is abandoned the moment
    // the new one attaches, and its output is never seen again.
    info.notify_selection(ChangeEvent::new(Fetch::ready(Ok(names(&["vlc", "mpv"])))));
    assert!(matches!(info.poll_next(), PollNext::Pending));
    info.attach(fresh_player(PlaybackStatus::Paused));
    match info.poll_next() {
        PollNext::Item(Some(Ok((list, snapshot)))) => {
            assert_eq!(names(&["vlc", "mpv"]), list);
            assert_eq!(PlaybackStatus::Paused, snapshot.playback_status);
        },
        other => panic!("expected vlc's snapshot, got {:?}", other),
    }
}

#[test]
fn empty_selection_yields_one_absent_item() {
    let selections = active_players(Ok(Vec::new()), Feed::new());
    let mut info = ActivePlayerInfoStream::new(selections);
    match info.poll_next() {
        PollNext::Item(None) => {},
        other => panic!("expected the no-player notice, got {:?}", other),
    }
    assert!(
        matches!(info.poll_next(), PollNext::Pending),
        "no player pipeline runs while the selection is empty"
    );
    assert!(!info.has_requested());
}

#[test]
fn failed_selection_yields_one_error_item() {
    let selections = active_players(
        Err(Error::Transport("bus gone".to_string())),
        Feed::new(),
    );
    let mut info = ActivePlayerInfoStream::new(selections);
    match info.poll_next() {
        PollNext::Item(Some(Err(Error::Transport(m)))) => assert_eq!("bus gone", m),
        other => panic!("expected the selection failure, got {:?}", other),
    }
}

#[test]
fn gated_pipeline_suppresses_while_hidden() {
    let selections = active_players(Ok(names(&["mpv"])), Feed::new());
    let info = ActivePlayerInfoStream::new(selections);
    let mut gated = hidden_active_player_info(Ok(true), Feed::new(), info, false);
    // The hide state says hidden: the first combined pair is suppressed
    // into an absent item.
    match gated.poll_next() {
        PollNext::Item(None) => {},
        other => panic!("expected the suppressed item, got {:?}", other),
    }
    // Un-hiding re-evaluates the pair with the latest underlying value.
    gated.attach(fresh_player(PlaybackStatus::Playing));
    assert!(
        matches!(gated.poll_next(), PollNext::Pending),
        "still hidden: the suppressed item equals the previous one"
    );
    gated.notify_gate(ChangeEvent::new(Fetch::ready(Ok(false))));
    match gated.poll_next() {
        PollNext::Item(Some(Some(Ok((_, snapshot))))) => {
            assert_eq!(PlaybackStatus::Playing, snapshot.playback_status)
        },
        other => panic!("expected the revealed snapshot, got {:?}", other),
    }
}

#[test]
fn gated_pipeline_reports_absence_for_empty_selection() {
    // The selection feed reports no active target: the per-player
    // pipeline emits a single absent item and idles, and the gated
    // pipeline reports absence.
    let selections = active_players(Ok(Vec::new()), Feed::new());
    let mut info = ActivePlayerInfoStream::new(selections);
    match info.poll_next() {
        PollNext::Item(None) => {},
        other => panic!("expected the no-player notice, got {:?}", other),
    }
    assert!(matches!(info.poll_next(), PollNext::Pending));

    let selections = active_players(Ok(Vec::new()), Feed::new());
    let info = ActivePlayerInfoStream::new(selections);
    let mut gated = hidden_active_player_info(Ok(false), Feed::new(), info, false);
    match gated.poll_next() {
        PollNext::Item(Some(None)) => {},
        other => panic!("expected the visible no-player item, got {:?}", other),
    }
    assert!(
        matches!(gated.poll_next(), PollNext::Pending),
        "nothing further until a non-empty selection arrives"
    );
}

#[test]
fn gated_pipeline_uses_the_default_before_the_gate_delivers() {
    let selections = active_players(Ok(Vec::new()), Feed::new());
    let info = ActivePlayerInfoStream::new(selections);
    // The hide-state feed's initial fetch failed, so the configured
    // default (hidden) applies.
    let mut gated = hidden_active_player_info(
        Err(Error::Transport("no hide state".to_string())),
        Feed::new(),
        info,
        true,
    );
    match gated.poll_next() {
        PollNext::Item(None) => {},
        other => panic!("expected suppression by default, got {:?}", other),
    }
}

#[test]
fn gated_pipeline_ends_when_the_gate_dies() {
    let selections = active_players(Ok(Vec::new()), Feed::new());
    let info = ActivePlayerInfoStream::new(selections);
    let mut gated = hidden_active_player_info(Ok(false), Feed::new(), info, false);
    assert!(matches!(gated.poll_next(), PollNext::Item(Some(None))));
    gated.close_gate_input();
    assert!(
        matches!(gated.poll_next(), PollNext::Closed),
        "a dead hide-state feed is fatal to the stage"
    );
}

#[test]
fn failed_subscription_yields_one_error_item() {
    let selections = active_players(Ok(names(&["mpv"])), Feed::new());
    let mut info = ActivePlayerInfoStream::new(selections);
    assert!(matches!(info.poll_next(), PollNext::Pending));
    assert!(info.has_requested());
    info.attach_failed(Error::Transport("no such player".to_string()));
    match info.poll_next() {
        PollNext::Item(Some(Err(Error::Transport(m)))) => assert_eq!("no such player", m),
        other => panic!("expected the subscription failure, got {:?}", other),
    }
    assert!(
        matches!(info.poll_next(), PollNext::Pending),
        "the failure is reported exactly once"
    );
}
