//! Rendering of gated snapshots into status-bar texts.
//!
//! Everything here is pure text construction: the binaries only print the
//! returned strings. The display name is built from the metadata's artist
//! and title; when the title already starts with the artist, the artist is
//! dropped.

use vstd::prelude::*;

use crate::active_player_info::InfoItem;
use crate::error::ErrorModel;
use crate::item::Modeled;
use crate::player_info::MetaValue;
use crate::player_info::MetaValueModel;
use crate::player_info::Metadata;
use crate::player_info::MetadataModel;
use crate::player_info::PlayerInfoModel;
use crate::proxies::PlaybackStatus;

verus! {

/// One gated item as the bar renderers receive it.
pub type GatedItem = Option<InfoItem>;

/// The status bars a snapshot can be rendered for.
#[derive(Debug)]
pub enum Bars {
    /// A polybar module line.
    Polybar {
        /// The index of the font holding the icons.
        icon_font: u8,
        /// The command that toggles the hide state.
        hide_cmd: String,
        /// The display name is truncated to this many characters.
        name_len: u8,
    },
    /// A yambar tag block.
    Yambar,
    /// The waybar socket server.
    Waybar,
}

/// The waybar socket a reader can attach to.
#[derive(Debug)]
pub enum Files {
    /// The skip-forward button.
    Next,
    /// The skip-backward button.
    Prev,
    /// The play/pause button.
    PlayPause,
    /// The track title.
    Title,
    /// The switch-to-next-player button.
    NextPlayer,
    /// The switch-to-previous-player button.
    PrevPlayer,
}

/// The short name of a waybar socket.
pub open spec fn files_stem(f: Files) -> Seq<char> {
    match f {
        Files::Next => "next"@,
        Files::Prev => "prev"@,
        Files::PlayPause => "play-pause"@,
        Files::Title => "title"@,
        Files::NextPlayer => "next-player"@,
        Files::PrevPlayer => "prev-player"@,
    }
}

impl Files {
    /// The short name of this socket.
    pub fn stem(&self) -> (r: &'static str)
        ensures
            r@ == files_stem(*self),
    {
        match self {
            Files::Next => "next",
            Files::Prev => "prev",
            Files::PlayPause => "play-pause",
            Files::Title => "title",
            Files::NextPlayer => "next-player",
            Files::PrevPlayer => "prev-player",
        }
    }

    /// The file name of this socket.
    pub fn socket_file(&self) -> (r: String)
        ensures
            r@ == "waybar-"@ + files_stem(*self) + ".sock"@,
    {
        String::from_str("waybar-").concat(self.stem()).concat(".sock")
    }
}

/// The first value stored under `key`, if any.
pub open spec fn meta_lookup(m: MetadataModel, key: Seq<char>) -> Option<MetaValueModel>
    decreases m.len(),
{
    if m.len() == 0 {
        None
    } else if m.first().0 == key {
        Some(m.first().1)
    } else {
        meta_lookup(m.drop_first(), key)
    }
}

/// The first textual value stored under `key`, if any.
pub open spec fn meta_text_lookup(m: MetadataModel, key: Seq<char>) -> Option<Seq<char>> {
    match meta_lookup(m, key) {
        Some(MetaValueModel::Text(t)) => Some(t),
        _ => None,
    }
}

/// Find the first textual value stored under `key`.
pub fn meta_text<'a>(meta: &'a Metadata, key: &str) -> (r: Option<&'a String>)
    ensures
        match r {
            Some(t) => meta_text_lookup(meta.model(), key@) == Some(t@),
            None => meta_text_lookup(meta.model(), key@) is None,
        },
{
    let key_string = String::from_str(key);
    let mut i: usize = 0;
    proof {
        assert(meta.model().skip(0) =~= meta.model());
    }
    while i < meta.len()
        invariant
            i <= meta.len(),
            key_string@ == key@,
            meta_lookup(meta.model(), key@) == meta_lookup(
                meta.model().skip(i as int),
                key@,
            ),
        decreases meta.len() - i,
    {
        proof {
            assert(meta.model().skip(i as int).first() == meta.model()[i as int]);
        }
        if meta[i].0.eq(&key_string) {
            match &meta[i].1 {
                MetaValue::Text(t) => {
                    return Some(t);
                },
                MetaValue::Other => {
                    return None;
                },
            }
        }
        proof {
            assert(meta.model().skip(i as int).drop_first() =~= meta.model().skip(i + 1));
        }
        i = i + 1;
    }
    proof {
        assert(meta.model().skip(i as int).len() == 0);
    }
    None
}

/// Relies on str::starts_with: whether the characters of `prefix` are a
/// prefix of the characters of `s`.
#[verifier::external_body]
fn text_starts_with(s: &str, prefix: &str) -> (r: bool)
    ensures
        r == (s@.len() >= prefix@.len() && s@.subrange(0, prefix@.len() as int) == prefix@),
{
    s.starts_with(prefix)
}

/// Relies on str::char_indices: the byte position of each character, used
/// to cut a string after `n - 1` characters and append an ellipsis when it
/// holds at least `n`.
#[verifier::external_body]
fn truncate_chars(s: &str, n: usize) -> (r: String)
    requires
        n >= 1,
    ensures
        r@ == (if s@.len() >= n {
            s@.subrange(0, n - 1).push('…')
        } else {
            s@
        }),
{
    match s.char_indices().nth(n - 1) {
        Some((cut, _)) => format!("{}…", &s[0..cut]),
        None => s.to_string(),
    }
}

/// The display name for an artist and a title: both joined by a dash,
/// either alone, or nothing; an artist that already prefixes the title is
/// dropped.
pub open spec fn display_name_spec(artist: Option<Seq<char>>, title: Option<Seq<char>>) -> Seq<
    char,
> {
    let artist_kept = match (artist, title) {
        (Some(a), Some(t)) => if t.len() >= a.len() && t.subrange(0, a.len() as int) == a {
            None
        } else {
            Some(a)
        },
        _ => artist,
    };
    match (artist_kept, title) {
        (Some(a), Some(t)) => a + " - "@ + t,
        (Some(a), None) => a,
        (None, Some(t)) => t,
        (None, None) => Seq::empty(),
    }
}

/// Build the display name from the metadata's artist and title.
pub fn display_name(meta: &Metadata) -> (r: String)
    ensures
        r@ == display_name_spec(
            meta_text_lookup(meta.model(), "xesam:artist"@),
            meta_text_lookup(meta.model(), "xesam:title"@),
        ),
{
    let artist = meta_text(meta, "xesam:artist");
    let title = meta_text(meta, "xesam:title");
    let artist = match (artist, title) {
        (Some(a), Some(t)) => {
            if text_starts_with(t.as_str(), a.as_str()) {
                None
            } else {
                Some(a)
            }
        },
        (a, _) => a,
    };
    match (artist, title) {
        (Some(a), Some(t)) => a.clone().concat(" - ").concat(t.as_str()),
        (Some(a), None) => a.clone(),
        (None, Some(t)) => t.clone(),
        (None, None) => String::new(),
    }
}

/// The icon and tooltip of the play/pause button for a playback status.
pub open spec fn play_icon(s: PlaybackStatus) -> (Seq<char>, Seq<char>) {
    match s {
        PlaybackStatus::Playing => ("⏸"@, "pause"@),
        PlaybackStatus::Paused => ("▶"@, "play"@),
        PlaybackStatus::Stopped => ("⬛"@, "stopped"@),
    }
}

/// The icon and tooltip of the play/pause button.
pub fn play_pause_icon(s: &PlaybackStatus) -> (r: (&'static str, &'static str))
    ensures
        (r.0@, r.1@) == play_icon(*s),
{
    match s {
        PlaybackStatus::Playing => ("⏸", "pause"),
        PlaybackStatus::Paused => ("▶", "play"),
        PlaybackStatus::Stopped => ("⬛", "stopped"),
    }
}

/// The character of one decimal digit.
pub open spec fn digit_char(d: u8) -> char {
    if d == 0 {
        '0'
    } else if d == 1 {
        '1'
    } else if d == 2 {
        '2'
    } else if d == 3 {
        '3'
    } else if d == 4 {
        '4'
    } else if d == 5 {
        '5'
    } else if d == 6 {
        '6'
    } else if d == 7 {
        '7'
    } else if d == 8 {
        '8'
    } else {
        '9'
    }
}

/// The decimal spelling of a byte value.
pub open spec fn decimal(v: u8) -> Seq<char>
    decreases v,
{
    if v < 10 {
        seq![digit_char(v)]
    } else {
        decimal(v / 10).push(digit_char(v % 10))
    }
}

/// One decimal digit as text.
fn digit_str(d: u8) -> (r: &'static str)
    requires
        d < 10,
    ensures
        r@ == seq![digit_char(d)],
{
    proof {
        reveal_strlit("0");
        reveal_strlit("1");
        reveal_strlit("2");
        reveal_strlit("3");
        reveal_strlit("4");
        reveal_strlit("5");
        reveal_strlit("6");
        reveal_strlit("7");
        reveal_strlit("8");
        reveal_strlit("9");
    }
    if d == 0 {
        "0"
    } else if d == 1 {
        "1"
    } else if d == 2 {
        "2"
    } else if d == 3 {
        "3"
    } else if d == 4 {
        "4"
    } else if d == 5 {
        "5"
    } else if d == 6 {
        "6"
    } else if d == 7 {
        "7"
    } else if d == 8 {
        "8"
    } else {
        "9"
    }
}

/// Spell a byte value in decimal.
pub fn decimal_text(v: u8) -> (r: String)
    ensures
        r@ == decimal(v),
    decreases v,
{
    if v < 10 {
        String::from_str(digit_str(v))
    } else {
        decimal_text(v / 10).concat(digit_str(v % 10))
    }
}

/// The spelling of a boolean.
pub open spec fn bool_text(b: bool) -> Seq<char> {
    if b {
        "true"@
    } else {
        "false"@
    }
}

/// Spell a boolean.
pub fn bool_str(b: bool) -> (r: &'static str)
    ensures
        r@ == bool_text(b),
{
    if b {
        "true"
    } else {
        "false"
    }
}

/// One waybar button: its text, tooltip and style class.
#[derive(Debug)]
pub struct Info {
    /// The button's text.
    pub text: Option<String>,
    /// The button's tooltip.
    pub tooltip: Option<String>,
    /// The button's style class.
    pub class: Option<String>,
}

/// The mathematical model of an [`Info`].
pub struct InfoModel {
    /// The button's text.
    pub text: Option<Seq<char>>,
    /// The button's tooltip.
    pub tooltip: Option<Seq<char>>,
    /// The button's style class.
    pub class: Option<Seq<char>>,
}

impl Modeled for Info {
    type Model = InfoModel;

    open spec fn model(&self) -> InfoModel {
        InfoModel {
            text: match self.text {
                Some(ref t) => Some(t@),
                None => None,
            },
            tooltip: match self.tooltip {
                Some(ref t) => Some(t@),
                None => None,
            },
            class: match self.class {
                Some(ref t) => Some(t@),
                None => None,
            },
        }
    }
}

/// The hidden button: no text, no tooltip, the `hidden` class.
pub open spec fn hidden_info() -> InfoModel {
    InfoModel { text: None, tooltip: None, class: Some("hidden"@) }
}

impl Default for Info {
    /// The hidden button.
    fn default() -> (r: Info)
        ensures
            r.model() == hidden_info(),
    {
        Info { text: None, tooltip: None, class: Some(String::from_str("hidden")) }
    }
}

/// The serialized form of a waybar button.
pub open spec fn info_json(i: InfoModel) -> Seq<char> {
    let t = match i.text {
        Some(t) => t,
        None => Seq::empty(),
    };
    match (i.tooltip, i.class) {
        (None, None) => "{text:\""@ + t + "\"}\n"@,
        (Some(tooltip), None) => "{text:\""@ + t + "\",tooltip:\""@ + tooltip + "\"}\n"@,
        (None, Some(class)) => "{text:\""@ + t + "\",class:\""@ + class + "\"}\n"@,
        (Some(tooltip), Some(class)) => "{text:\""@ + t + "\",class:\""@ + class + "\",tooltip:\""@
            + tooltip + "\"}\n"@,
    }
}

impl Info {
    /// Serialize the button for the waybar socket.
    pub fn serialize(self) -> (r: String)
        ensures
            r@ == info_json(self.model()),
    {
        let text = match self.text {
            Some(t) => t,
            None => String::new(),
        };
        match (self.tooltip, self.class) {
            (None, None) => String::from_str("{text:\"").concat(text.as_str()).concat("\"}\n"),
            (Some(tooltip), None) => String::from_str("{text:\"").concat(text.as_str()).concat(
                "\",tooltip:\"",
            ).concat(tooltip.as_str()).concat("\"}\n"),
            (None, Some(class)) => String::from_str("{text:\"").concat(text.as_str()).concat(
                "\",class:\"",
            ).concat(class.as_str()).concat("\"}\n"),
            (Some(tooltip), Some(class)) => String::from_str("{text:\"").concat(
                text.as_str(),
            ).concat("\",class:\"").concat(class.as_str()).concat("\",tooltip:\"").concat(
                tooltip.as_str(),
            ).concat("\"}\n"),
        }
    }
}

/// The six waybar buttons.
#[derive(Debug)]
pub struct Infos {
    /// Switch to the previous player.
    pub prev_player: Info,
    /// Switch to the next player.
    pub next_player: Info,
    /// The track title.
    pub title: Info,
    /// Play or pause.
    pub play_pause: Info,
    /// Go to the previous track.
    pub prev: Info,
    /// Go to the next track.
    pub next: Info,
}

/// A button with a text and a tooltip, no class.
pub open spec fn plain_info(text: Seq<char>, tooltip: Seq<char>) -> InfoModel {
    InfoModel { text: Some(text), tooltip: Some(tooltip), class: None }
}

/// Render one gated item into the six waybar buttons.
///
/// No item at all hides every button; an absent player names no player; a
/// failure shows its message as the title; a snapshot fills every button,
/// hiding the player-switch buttons when there is no sibling and the
/// skip buttons when the player refuses them.
pub fn waybar(item: &GatedItem) -> (r: Infos)
    ensures
        match item {
            None => {
                &&& r.prev_player.model() == hidden_info()
                &&& r.next_player.model() == hidden_info()
                &&& r.title.model() == hidden_info()
                &&& r.play_pause.model() == hidden_info()
                &&& r.prev.model() == hidden_info()
                &&& r.next.model() == hidden_info()
            },
            Some(None) => {
                &&& r.title.model() == (InfoModel {
                    text: Some("no player"@),
                    tooltip: None,
                    class: None,
                })
                &&& r.prev_player.model() == hidden_info()
                &&& r.next_player.model() == hidden_info()
                &&& r.play_pause.model() == hidden_info()
                &&& r.prev.model() == hidden_info()
                &&& r.next.model() == hidden_info()
            },
            Some(Some(Err(e))) => {
                &&& r.title.model() == plain_info(
                    error_message(e.model()),
                    error_message(e.model()),
                )
                &&& r.prev_player.model() == hidden_info()
                &&& r.next_player.model() == hidden_info()
                &&& r.play_pause.model() == hidden_info()
                &&& r.prev.model() == hidden_info()
                &&& r.next.model() == hidden_info()
            },
            Some(Some(Ok((names, info)))) => {
                let name = display_name_spec(
                    meta_text_lookup(info.metadata.model(), "xesam:artist"@),
                    meta_text_lookup(info.metadata.model(), "xesam:title"@),
                );
                &&& r.title.model() == plain_info(name, name)
                &&& r.play_pause.model() == plain_info(
                    play_icon(info.playback_status).0,
                    play_icon(info.playback_status).1,
                )
                &&& (if names@.len() == 1 {
                    r.prev_player.model() == hidden_info() && r.next_player.model()
                        == hidden_info()
                } else {
                    r.prev_player.model() == plain_info("⏶"@, "switch to previous player"@)
                        && r.next_player.model() == plain_info("⏷"@, "switch to next player"@)
                })
                &&& r.prev.model() == (if info.can_go_previous {
                    plain_info("⏮"@, "go to previous"@)
                } else {
                    hidden_info()
                })
                &&& r.next.model() == (if info.can_go_next {
                    plain_info("⏭"@, "go to next"@)
                } else {
                    hidden_info()
                })
            },
        },
{
    match item {
        None => Infos {
            prev_player: Info::default(),
            next_player: Info::default(),
            title: Info::default(),
            play_pause: Info::default(),
            prev: Info::default(),
            next: Info::default(),
        },
        Some(None) => Infos {
            prev_player: Info::default(),
            next_player: Info::default(),
            title: Info {
                text: Some(String::from_str("no player")),
                tooltip: None,
                class: None,
            },
            play_pause: Info::default(),
            prev: Info::default(),
            next: Info::default(),
        },
        Some(Some(Err(e))) => Infos {
            prev_player: Info::default(),
            next_player: Info::default(),
            title: Info {
                text: Some(e.message()),
                tooltip: Some(e.message()),
                class: None,
            },
            play_pause: Info::default(),
            prev: Info::default(),
            next: Info::default(),
        },
        Some(Some(Ok((names, info)))) => {
            let name = display_name(&info.metadata);
            let (play, play_tooltip) = play_pause_icon(&info.playback_status);
            let (prev_player, next_player) = if names.len() == 1 {
                (Info::default(), Info::default())
            } else {
                (
                    Info {
                        text: Some(String::from_str("⏶")),
                        tooltip: Some(String::from_str("switch to previous player")),
                        class: None,
                    },
                    Info {
                        text: Some(String::from_str("⏷")),
                        tooltip: Some(String::from_str("switch to next player")),
                        class: None,
                    },
                )
            };
            let prev = if info.can_go_previous {
                Info {
                    text: Some(String::from_str("⏮")),
                    tooltip: Some(String::from_str("go to previous")),
                    class: None,
                }
            } else {
                Info::default()
            };
            let next = if info.can_go_next {
                Info {
                    text: Some(String::from_str("⏭")),
                    tooltip: Some(String::from_str("go to next")),
                    class: None,
                }
            } else {
                Info::default()
            };
            Infos {
                prev_player,
                next_player,
                title: Info { text: Some(name.clone()), tooltip: Some(name), class: None },
                play_pause: Info {
                    text: Some(String::from_str(play)),
                    tooltip: Some(String::from_str(play_tooltip)),
                    class: None,
                },
                prev,
                next,
            }
        },
    }
}

/// The message of an error, at the model level.
pub open spec fn error_message(e: ErrorModel) -> Seq<char> {
    match e {
        ErrorModel::Transport(m) => "transport failure: "@ + m,
        ErrorModel::Unsupported => "unsupported property"@,
        ErrorModel::Decode(m) => "decode failure: "@ + m,
    }
}

/// One polybar icon button: the icon in the icon font, wrapped in a
/// click action.
pub open spec fn polybar_button(font: Seq<char>, cmd: Seq<char>, icon: Seq<char>) -> Seq<char> {
    "%{T"@ + font + "}%{A1:"@ + cmd + ":}"@ + icon + "%{A}%{T-}"@
}

/// Build one polybar icon button.
fn button(font: &str, cmd: &str, icon: &str) -> (r: String)
    ensures
        r@ == polybar_button(font@, cmd@, icon@),
{
    String::from_str("%{T").concat(font).concat("}%{A1:").concat(cmd).concat(":}").concat(
        icon,
    ).concat("%{A}%{T-}")
}

/// The polybar line for one gated item.
pub open spec fn polybar_line(
    item: Option<Option<Result<(Seq<Seq<char>>, PlayerInfoModel), ErrorModel>>>,
    font: Seq<char>,
    hide_cmd: Seq<char>,
    name_limit: nat,
) -> Seq<char> {
    let toggle = polybar_button(font, hide_cmd, "🐧"@);
    match item {
        None => toggle,
        Some(None) => toggle + " No Player"@,
        Some(Some(Err(e))) => error_message(e),
        Some(Some(Ok((names, info)))) => {
            let full = display_name_spec(
                meta_text_lookup(info.metadata, "xesam:artist"@),
                meta_text_lookup(info.metadata, "xesam:title"@),
            );
            let name = if full.len() >= name_limit && name_limit >= 1 {
                full.subrange(0, name_limit - 1).push('…')
            } else {
                full
            };
            let controls = name + " "@ + polybar_button(font, "playerctl play-pause"@, play_icon(
                info.playback_status,
            ).0) + " "@ + polybar_button(font, "playerctl previous"@, "⏮"@) + " "@
                + polybar_button(font, "playerctl next"@, "⏭"@);
            if names.len() != 1 {
                toggle + " "@ + polybar_button(font, "playerctld shift"@, "⏶"@) + " "@
                    + polybar_button(font, "playerctld unshift"@, "⏷"@) + " "@ + controls
            } else {
                toggle + " "@ + controls
            }
        },
    }
}

/// Render one gated item as a polybar module line.
pub fn polybar(item: &GatedItem, icon_font: u8, hide_cmd: &str, name_len: u8) -> (r: String)
    requires
        name_len >= 1,
    ensures
        r@ == polybar_line(item.model(), decimal(icon_font), hide_cmd@, name_len as nat),
{
    let font = decimal_text(icon_font);
    let toggle = button(font.as_str(), hide_cmd, "🐧");
    match item {
        None => toggle,
        Some(None) => toggle.concat(" No Player"),
        Some(Some(Err(e))) => e.message(),
        Some(Some(Ok((names, info)))) => {
            let full = display_name(&info.metadata);
            let name = truncate_chars(full.as_str(), name_len as usize);
            let (play, _) = play_pause_icon(&info.playback_status);
            let controls = name.concat(" ").concat(
                button(font.as_str(), "playerctl play-pause", play).as_str(),
            ).concat(" ").concat(button(font.as_str(), "playerctl previous", "⏮").as_str()).concat(
                " ",
            ).concat(button(font.as_str(), "playerctl next", "⏭").as_str());
            if names.len() != 1 {
                toggle.concat(" ").concat(
                    button(font.as_str(), "playerctld shift", "⏶").as_str(),
                ).concat(" ").concat(
                    button(font.as_str(), "playerctld unshift", "⏷").as_str(),
                ).concat(" ").concat(controls.as_str())
            } else {
                toggle.concat(" ").concat(controls.as_str())
            }
        },
    }
}

/// The yambar tag block for one gated item.
pub open spec fn yambar_block(
    item: Option<Option<Result<(Seq<Seq<char>>, PlayerInfoModel), ErrorModel>>>,
) -> Seq<char> {
    let fields: (bool, bool, Seq<char>, bool, bool, bool, Seq<char>) = match item {
        None => (false, false, Seq::empty(), false, false, false, Seq::empty()),
        Some(None) => (true, false, "No Player"@, false, false, false, Seq::empty()),
        Some(Some(Err(e))) => (true, false, error_message(e), false, false, false, Seq::empty()),
        Some(Some(Ok((_, info)))) => (
            true,
            true,
            display_name_spec(
                meta_text_lookup(info.metadata, "xesam:artist"@),
                meta_text_lookup(info.metadata, "xesam:title"@),
            ),
            info.can_go_next,
            info.can_go_previous,
            true,
            play_icon(info.playback_status).0,
        ),
    };
    "mpris_show|bool|"@ + bool_text(fields.0) + "\nmpris_switch|bool|"@ + bool_text(fields.1)
        + "\nmpris_text|string|"@ + fields.2 + "\nmpris_next|bool|"@ + bool_text(fields.3)
        + "\nmpris_prev|bool|"@ + bool_text(fields.4) + "\nmpris_show_play|bool|"@ + bool_text(
        fields.5,
    ) + "\nmpris_play_pause|string|"@ + fields.6 + "\n"@
}

/// Render one gated item as a yambar tag block.
pub fn yambar(item: &GatedItem) -> (r: String)
    ensures
        r@ == yambar_block(item.model()),
{
    let show: bool;
    let switch: bool;
    let text: String;
    let next: bool;
    let prev: bool;
    let show_play: bool;
    let play_pause: &'static str;
    match item {
        None => {
            show = false;
            switch = false;
            text = String::new();
            next = false;
            prev = false;
            show_play = false;
            play_pause = "";
        },
        Some(None) => {
            show = true;
            switch = false;
            text = String::from_str("No Player");
            next = false;
            prev = false;
            show_play = false;
            play_pause = "";
        },
        Some(Some(Err(e))) => {
            show = true;
            switch = false;
            text = e.message();
            next = false;
            prev = false;
            show_play = false;
            play_pause = "";
        },
        Some(Some(Ok((_, info)))) => {
            show = true;
            switch = true;
            text = display_name(&info.metadata);
            next = info.can_go_next;
            prev = info.can_go_previous;
            show_play = true;
            let (play, _) = play_pause_icon(&info.playback_status);
            play_pause = play;
        },
    }
    proof {
        reveal_strlit("");
    }
    String::from_str("mpris_show|bool|").concat(bool_str(show)).concat(
        "\nmpris_switch|bool|",
    ).concat(bool_str(switch)).concat("\nmpris_text|string|").concat(text.as_str()).concat(
        "\nmpris_next|bool|",
    ).concat(bool_str(next)).concat("\nmpris_prev|bool|").concat(bool_str(prev)).concat(
        "\nmpris_show_play|bool|",
    ).concat(bool_str(show_play)).concat("\nmpris_play_pause|string|").concat(play_pause).concat(
        "\n",
    )
}

} // verus!
