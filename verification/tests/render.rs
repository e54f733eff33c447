//! Rendering of gated items into bar texts.

use mpris_dbus::error::Error;
use mpris_dbus::info::decimal_text;
use mpris_dbus::info::display_name;
use mpris_dbus::info::meta_text;
use mpris_dbus::info::polybar;
use mpris_dbus::info::waybar;
use mpris_dbus::info::yambar;
use mpris_dbus::info::Files;
use mpris_dbus::info::GatedItem;
use mpris_dbus::info::Info;
use mpris_dbus::player_info::MetaValue;
use mpris_dbus::player_info::Metadata;
use mpris_dbus::player_info::PlayerInfo;
use mpris_dbus::proxies::PlaybackStatus;

fn meta(artist: Option<&str>, title: Option<&str>) -> Metadata {
    let mut m: Metadata = Vec::new();
    if let Some(a) = artist {
        m.push(("xesam:artist".to_string(), MetaValue::Text(a.to_string())));
    }
    if let Some(t) = title {
        m.push(("xesam:title".to_string(), MetaValue::Text(t.to_string())));
    }
    m
}

fn playing(artist: Option<&str>, title: Option<&str>, siblings: &[&str]) -> GatedItem {
    Some(Some(Ok((
        siblings.iter().map(|s| s.to_string()).collect(),
        PlayerInfo {
            playback_status: PlaybackStatus::Playing,
            loop_status: None,
            shuffle: None,
            metadata: meta(artist, title),
            can_go_next: true,
            can_go_previous: false,
            can_play: true,
            can_pause: true,
        },
    ))))
}

#[test]
fn display_name_joins_artist_and_title() {
    assert_eq!(
        "Someone - A Song",
        display_name(&meta(Some("Someone"), Some("A Song")))
    );
    assert_eq!("A Song", display_name(&meta(None, Some("A Song"))));
    assert_eq!("Someone", display_name(&meta(Some("Someone"), None)));
    assert_eq!("", display_name(&meta(None, None)));
}

#[test]
fn display_name_drops_artist_already_in_title() {
    assert_eq!(
        "Someone: Live",
        display_name(&meta(Some("Someone"), Some("Someone: Live")))
    );
}

#[test]
fn meta_text_finds_only_textual_values() {
    let mut m = meta(Some("Someone"), None);
    m.push(("mpris:length".to_string(), MetaValue::Other));
    assert_eq!(Some(&"Someone".to_string()), meta_text(&m, "xesam:artist"));
    assert_eq!(None, meta_text(&m, "mpris:length"));
    assert_eq!(None, meta_text(&m, "xesam:title"));
}

#[test]
fn decimal_text_spells_bytes() {
    assert_eq!("0", decimal_text(0));
    assert_eq!("7", decimal_text(7));
    assert_eq!("42", decimal_text(42));
    assert_eq!("255", decimal_text(255));
}

#[test]
fn waybar_info_serializes_each_shape() {
    assert_eq!("{text:\"\",class:\"hidden\"}\n", Info::default().serialize());
    let full = Info {
        text: Some("t".to_string()),
        tooltip: Some("tt".to_string()),
        class: Some("c".to_string()),
    };
    assert_eq!("{text:\"t\",class:\"c\",tooltip:\"tt\"}\n", full.serialize());
    let bare = Info {
        text: Some("t".to_string()),
        tooltip: None,
        class: None,
    };
    assert_eq!("{text:\"t\"}\n", bare.serialize());
}

#[test]
fn waybar_renders_a_playing_snapshot() {
    let infos = waybar(&playing(Some("Someone"), Some("A Song"), &["mpv", "vlc"]));
    assert_eq!(Some("Someone - A Song".to_string()), infos.title.text);
    assert_eq!(Some("⏸".to_string()), infos.play_pause.text);
    assert_eq!(Some("pause".to_string()), infos.play_pause.tooltip);
    assert_eq!(Some("⏷".to_string()), infos.next_player.text);
    assert_eq!(Some("⏭".to_string()), infos.next.text);
    assert_eq!(Some("hidden".to_string()), infos.prev.class);
}

#[test]
fn waybar_hides_player_switching_without_siblings() {
    let infos = waybar(&playing(None, Some("A Song"), &["mpv"]));
    assert_eq!(Some("hidden".to_string()), infos.prev_player.class);
    assert_eq!(Some("hidden".to_string()), infos.next_player.class);
}

#[test]
fn waybar_reports_no_player_and_hidden() {
    let infos = waybar(&Some(None));
    assert_eq!(Some("no player".to_string()), infos.title.text);
    let infos = waybar(&None);
    assert_eq!(Some("hidden".to_string()), infos.title.class);
    assert_eq!(None, infos.title.text);
}

#[test]
fn polybar_renders_the_full_line() {
    let line = polybar(
        &playing(None, Some("A Song"), &["mpv"]),
        3,
        "toggle-cmd",
        200,
    );
    assert_eq!(
        "%{T3}%{A1:toggle-cmd:}\u{1f427}%{A}%{T-} A Song \
         %{T3}%{A1:playerctl play-pause:}⏸%{A}%{T-} \
         %{T3}%{A1:playerctl previous:}⏮%{A}%{T-} \
         %{T3}%{A1:playerctl next:}⏭%{A}%{T-}",
        line
    );
}

#[test]
fn polybar_adds_switch_buttons_with_siblings() {
    let line = polybar(&playing(None, Some("A Song"), &["mpv", "vlc"]), 3, "t", 200);
    assert!(line.contains("playerctld shift"));
    assert!(line.contains("playerctld unshift"));
}

#[test]
fn polybar_truncates_long_names() {
    let line = polybar(&playing(None, Some("abcdefgh"), &["mpv"]), 1, "t", 5);
    assert!(line.contains("abcd…"), "line was {:?}", line);
    assert!(!line.contains("abcde"));
}

#[test]
fn polybar_shows_the_toggle_alone_when_hidden() {
    let line = polybar(&None, 9, "cmd", 10);
    assert_eq!("%{T9}%{A1:cmd:}\u{1f427}%{A}%{T-}", line);
    let line = polybar(&Some(None), 9, "cmd", 10);
    assert_eq!("%{T9}%{A1:cmd:}\u{1f427}%{A}%{T-} No Player", line);
}

#[test]
fn polybar_shows_the_error_message() {
    let line = polybar(
        &Some(Some(Err(Error::Transport("gone".to_string())))),
        1,
        "t",
        10,
    );
    assert_eq!("transport failure: gone", line);
}

#[test]
fn yambar_renders_a_playing_snapshot() {
    let block = yambar(&playing(None, Some("A Song"), &["mpv"]));
    assert_eq!(
        "mpris_show|bool|true\nmpris_switch|bool|true\nmpris_text|string|A Song\n\
         mpris_next|bool|true\nmpris_prev|bool|false\nmpris_show_play|bool|true\n\
         mpris_play_pause|string|⏸\n",
        block
    );
}

#[test]
fn yambar_hides_everything_without_an_item() {
    let block = yambar(&None);
    assert_eq!(
        "mpris_show|bool|false\nmpris_switch|bool|false\nmpris_text|string|\n\
         mpris_next|bool|false\nmpris_prev|bool|false\nmpris_show_play|bool|false\n\
         mpris_play_pause|string|\n",
        block
    );
}

#[test]
fn yambar_names_the_missing_player() {
    let block = yambar(&Some(None));
    assert!(block.contains("mpris_text|string|No Player\n"));
    assert!(block.contains("mpris_switch|bool|false\n"));
}

#[test]
fn waybar_socket_files_are_stable() {
    assert_eq!("waybar-next.sock", Files::Next.socket_file());
    assert_eq!("waybar-prev.sock", Files::Prev.socket_file());
    assert_eq!("waybar-play-pause.sock", Files::PlayPause.socket_file());
    assert_eq!("waybar-title.sock", Files::Title.socket_file());
    assert_eq!("waybar-next-player.sock", Files::NextPlayer.socket_file());
    assert_eq!("waybar-prev-player.sock", Files::PrevPlayer.socket_file());
}
