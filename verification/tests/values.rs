//! Domain values: status parsing, the hide-state server, and errors.

use mpris_dbus::error::Error;
use mpris_dbus::proxies::HideServer;
use mpris_dbus::proxies::LoopStatus;
use mpris_dbus::proxies::PlaybackStatus;

#[test]
fn playback_status_parses_the_three_spellings() {
    assert_eq!(Ok(PlaybackStatus::Playing), PlaybackStatus::parse("Playing"));
    assert_eq!(Ok(PlaybackStatus::Paused), PlaybackStatus::parse("Paused"));
    assert_eq!(Ok(PlaybackStatus::Stopped), PlaybackStatus::parse("Stopped"));
}

#[test]
fn playback_status_rejects_anything_else() {
    match PlaybackStatus::parse("playing") {
        Err(Error::Decode(m)) => assert_eq!("Unknown PlaybackStatus value", m),
        other => panic!("expected a decode failure, got {:?}", other),
    }
}

#[test]
fn playback_status_round_trips() {
    for status in [
        PlaybackStatus::Playing,
        PlaybackStatus::Paused,
        PlaybackStatus::Stopped,
    ] {
        assert_eq!(Ok(status), PlaybackStatus::parse(status.as_text()));
    }
}

#[test]
fn loop_status_parses_the_three_spellings() {
    assert_eq!(Ok(LoopStatus::NoLoop), LoopStatus::parse("None"));
    assert_eq!(Ok(LoopStatus::Track), LoopStatus::parse("Track"));
    assert_eq!(Ok(LoopStatus::Playlist), LoopStatus::parse("Playlist"));
}

#[test]
fn loop_status_rejects_anything_else() {
    match LoopStatus::parse("track") {
        Err(Error::Decode(m)) => assert_eq!("Unknown LoopStatus value", m),
        other => panic!("expected a decode failure, got {:?}", other),
    }
}

#[test]
fn loop_status_round_trips() {
    for status in [LoopStatus::NoLoop, LoopStatus::Track, LoopStatus::Playlist] {
        assert_eq!(Ok(status), LoopStatus::parse(status.as_text()));
    }
}

#[test]
fn hide_server_holds_and_toggles_its_state() {
    let mut server = HideServer::new(false);
    assert!(!server.hidden());
    server.set_hidden(true);
    assert!(server.hidden());
    let before = server.toggle();
    assert!(before, "toggle reports the state before the flip");
    assert!(!server.hidden());
    let before = server.toggle();
    assert!(!before);
    assert!(server.hidden());
}

#[test]
fn error_messages_name_the_failure() {
    assert_eq!(
        "transport failure: timed out",
        Error::Transport("timed out".to_string()).message()
    );
    assert_eq!("unsupported property", Error::Unsupported.message());
    assert_eq!(
        "decode failure: not a string",
        Error::Decode("not a string".to_string()).message()
    );
}
