//! Domain values carried by the bus: playback state, loop state, and the
//! hide-state server.
//!
//! The bus encodes playback and loop state as strings; the parsers here
//! accept exactly the three documented spellings of each and reject
//! anything else with a decode failure.

use vstd::prelude::*;

use crate::error::Error;
use crate::error::ErrorModel;
use crate::item::Modeled;
use crate::item::StreamItem;

verus! {

/// Whether a player repeats the current track or playlist.
#[derive(Debug, Clone, Copy, PartialEq, Eq, Structural)]
pub enum LoopStatus {
    /// The playback loops nothing.
    NoLoop,
    /// The current track is repeated.
    Track,
    /// The current playlist is repeated.
    Playlist,
}

/// The spelling of a loop status on the bus.
pub open spec fn loop_status_text(v: LoopStatus) -> Seq<char> {
    match v {
        LoopStatus::NoLoop => "None"@,
        LoopStatus::Track => "Track"@,
        LoopStatus::Playlist => "Playlist"@,
    }
}

/// The loop status a spelling denotes, if any.
pub open spec fn loop_status_of_text(s: Seq<char>) -> Option<LoopStatus> {
    if s == "None"@ {
        Some(LoopStatus::NoLoop)
    } else if s == "Track"@ {
        Some(LoopStatus::Track)
    } else if s == "Playlist"@ {
        Some(LoopStatus::Playlist)
    } else {
        None
    }
}

impl LoopStatus {
    /// Parse the bus spelling of a loop status: exactly `None`, `Track`
    /// or `Playlist`; anything else is a decode failure.
    pub fn parse(s: &str) -> (r: Result<LoopStatus, Error>)
        ensures
            match loop_status_of_text(s@) {
                Some(v) => r == Ok::<LoopStatus, Error>(v),
                None => r matches Err(e) && e.model() == ErrorModel::Decode(
                    "Unknown LoopStatus value"@,
                ),
            },
    {
        let text = String::from_str(s);
        if text.eq(&String::from_str("None")) {
            Ok(LoopStatus::NoLoop)
        } else if text.eq(&String::from_str("Track")) {
            Ok(LoopStatus::Track)
        } else if text.eq(&String::from_str("Playlist")) {
            Ok(LoopStatus::Playlist)
        } else {
            Err(Error::Decode(String::from_str("Unknown LoopStatus value")))
        }
    }

    /// The bus spelling of this loop status.
    pub fn as_text(&self) -> (r: &'static str)
        ensures
            r@ == loop_status_text(*self),
    {
        match self {
            LoopStatus::NoLoop => "None",
            LoopStatus::Track => "Track",
            LoopStatus::Playlist => "Playlist",
        }
    }
}

impl Modeled for LoopStatus {
    type Model = LoopStatus;

    open spec fn model(&self) -> LoopStatus {
        *self
    }
}

impl StreamItem for LoopStatus {
    fn dup(&self) -> (r: LoopStatus)
        ensures
            r.model() == self.model(),
    {
        *self
    }

    fn same(&self, other: &LoopStatus) -> (r: bool)
        ensures
            r == (self.model() == other.model()),
    {
        *self == *other
    }
}

/// Whether a player is playing, paused or stopped.
#[derive(Debug, Clone, Copy, PartialEq, Eq, Structural)]
pub enum PlaybackStatus {
    /// The player is playing.
    Playing,
    /// The player is paused.
    Paused,
    /// The player is stopped.
    Stopped,
}

/// The spelling of a playback status on the bus.
pub open spec fn playback_status_text(v: PlaybackStatus) -> Seq<char> {
    match v {
        PlaybackStatus::Playing => "Playing"@,
        PlaybackStatus::Paused => "Paused"@,
        PlaybackStatus::Stopped => "Stopped"@,
    }
}

/// The playback status a spelling denotes, if any.
pub open spec fn playback_status_of_text(s: Seq<char>) -> Option<PlaybackStatus> {
    if s == "Playing"@ {
        Some(PlaybackStatus::Playing)
    } else if s == "Paused"@ {
        Some(PlaybackStatus::Paused)
    } else if s == "Stopped"@ {
        Some(PlaybackStatus::Stopped)
    } else {
        None
    }
}

impl PlaybackStatus {
    /// Parse the bus spelling of a playback status: exactly `Playing`,
    /// `Paused` or `Stopped`; anything else is a decode failure.
    pub fn parse(s: &str) -> (r: Result<PlaybackStatus, Error>)
        ensures
            match playback_status_of_text(s@) {
                Some(v) => r == Ok::<PlaybackStatus, Error>(v),
                None => r matches Err(e) && e.model() == ErrorModel::Decode(
                    "Unknown PlaybackStatus value"@,
                ),
            },
    {
        let text = String::from_str(s);
        if text.eq(&String::from_str("Playing")) {
            Ok(PlaybackStatus::Playing)
        } else if text.eq(&String::from_str("Paused")) {
            Ok(PlaybackStatus::Paused)
        } else if text.eq(&String::from_str("Stopped")) {
            Ok(PlaybackStatus::Stopped)
        } else {
            Err(Error::Decode(String::from_str("Unknown PlaybackStatus value")))
        }
    }

    /// The bus spelling of this playback status.
    pub fn as_text(&self) -> (r: &'static str)
        ensures
            r@ == playback_status_text(*self),
    {
        match self {
            PlaybackStatus::Playing => "Playing",
            PlaybackStatus::Paused => "Paused",
            PlaybackStatus::Stopped => "Stopped",
        }
    }
}

impl Modeled for PlaybackStatus {
    type Model = PlaybackStatus;

    open spec fn model(&self) -> PlaybackStatus {
        *self
    }
}

impl StreamItem for PlaybackStatus {
    fn dup(&self) -> (r: PlaybackStatus)
        ensures
            r.model() == self.model(),
    {
        *self
    }

    fn same(&self, other: &PlaybackStatus) -> (r: bool)
        ensures
            r == (self.model() == other.model()),
    {
        *self == *other
    }
}

/// The hide-state service: one boolean the bus exposes as a property and
/// a toggle method.
pub struct HideServer {
    hidden: bool,
}

impl HideServer {
    /// The current hide state.
    pub closed spec fn state(&self) -> bool {
        self.hidden
    }

    /// Create the server with an initial hide state.
    pub fn new(state: bool) -> (r: HideServer)
        ensures
            r.state() == state,
    {
        HideServer { hidden: state }
    }

    /// Read the hide state.
    pub fn hidden(&self) -> (r: bool)
        ensures
            r == self.state(),
    {
        self.hidden
    }

    /// Overwrite the hide state.
    pub fn set_hidden(&mut self, new: bool)
        ensures
            final(self).state() == new,
    {
        self.hidden = new;
    }

    /// Flip the hide state; reports the state before the flip.
    pub fn toggle(&mut self) -> (r: bool)
        ensures
            final(self).state() == !old(self).state(),
            r == old(self).state(),
    {
        let prev = self.hidden;
        self.hidden = !self.hidden;
        prev
    }
}

} // verus!
