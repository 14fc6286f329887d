//! The track, loop-mode and focus types shared by the player state.
use vstd::prelude::*;
use crate::text::{clock, fmt_time, unknown_time, unknown_time_string};

verus! {

/// One playable video: its YouTube id, title, channel and, when known, its
/// length in milliseconds.
#[derive(Debug, PartialEq, Eq)]
pub struct Track {
    pub id: String,
    pub title: String,
    pub channel: String,
    pub duration_ms: Option<u64>,
}

impl Clone for Track {
    fn clone(&self) -> (r: Self)
        ensures
            r == *self,
    {
        Track {
            id: self.id.clone(),
            title: self.title.clone(),
            channel: self.channel.clone(),
            duration_ms: self.duration_ms,
        }
    }
}

/// The watch-page address of a video id.
pub open spec fn watch_url(id: Seq<char>) -> Seq<char> {
    "https://www.youtube.com/watch?v="@ + id
}

/// The length column of a track: its clock time, or `--:--` when unknown.
pub open spec fn duration_text(d: Option<u64>) -> Seq<char> {
    match d {
        Some(ms) => clock((ms / 1000) as nat),
        None => unknown_time(),
    }
}

impl Track {
    /// The watch-page URL of this track.
    pub fn url(&self) -> (r: String)
        ensures
            r@ == watch_url(self.id@),
    {
        String::from_str("https://www.youtube.com/watch?v=").concat(self.id.as_str())
    }

    /// The track's length as a clock time, or `--:--` when it is unknown.
    pub fn duration_str(&self) -> (r: String)
        ensures
            r@ == duration_text(self.duration_ms),
    {
        match self.duration_ms {
            Some(ms) => fmt_time(ms / 1000),
            None => unknown_time_string(),
        }
    }
}

/// How playback continues once a track ends.
#[derive(Debug, Clone, Copy, PartialEq, Eq, Structural)]
pub enum LoopMode {
    Off,
    One,
    Playlist,
}

/// The word shown for a loop mode.
pub open spec fn loop_label(m: LoopMode) -> Seq<char> {
    match m {
        LoopMode::Off => "off"@,
        LoopMode::One => "one"@,
        LoopMode::Playlist => "list"@,
    }
}

impl LoopMode {
    /// The word shown for this mode: `off`, `one` or `list`.
    pub fn label(self) -> (r: &'static str)
        ensures
            r@ == loop_label(self),
    {
        match self {
            LoopMode::Off => "off",
            LoopMode::One => "one",
            LoopMode::Playlist => "list",
        }
    }
}

/// The pane that receives keys.
#[derive(Debug, Clone, Copy, PartialEq, Eq, Structural)]
pub enum Focus {
    Search,
    Results,
    Playlist,
}

} // verus!
