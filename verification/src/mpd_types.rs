//! MPD-domain facts: play state, the narrow `status` and `currentsong`
//! views, idle subsystems, and the `key: value` fields responses carry.
use vstd::prelude::*;

use crate::span::Span;

verus! {

/// MPD playback state, as reported by `status`'s `state:` field.
#[derive(Debug, Clone, Copy, PartialEq, Eq, Hash, Structural)]
pub enum PlayState {
    Playing,
    Paused,
    Stopped,
}

/// Narrow view of MPD's `status` response.
#[derive(Debug, Clone, Copy, PartialEq, Eq, Structural)]
pub struct MpdStatus {
    /// Playback state (always present).
    pub state: PlayState,
    /// Zero-based queue position of the current song.
    pub song_position: Option<u32>,
    /// Elapsed time in the current song; `None` when unknown.
    pub elapsed: Option<Span>,
    /// Length of the current song; `None` when unknown.
    pub duration: Option<Span>,
    /// Volume 0-100; `None` when MPD has no mixer or reports a value out of range.
    pub volume: Option<u8>,
}

/// Narrow view of MPD's `currentsong` response.
#[derive(Debug, Clone)]
pub struct MpdSong {
    /// MPD-relative file path; always present.
    pub file_path: String,
    pub title: Option<String>,
    pub artist: Option<String>,
    pub album: Option<String>,
    /// From `duration:` (MPD 0.21+) or, failing that, `Time:`.
    pub duration: Option<Span>,
}

pub struct MpdSongV {
    pub file_path: Seq<char>,
    pub title: Option<Seq<char>>,
    pub artist: Option<Seq<char>>,
    pub album: Option<Seq<char>>,
    pub duration: Option<Span>,
}

pub open spec fn opt_string_view(s: Option<String>) -> Option<Seq<char>> {
    match s {
        Some(t) => Some(t@),
        None => None,
    }
}

impl View for MpdSong {
    type V = MpdSongV;

    open spec fn view(&self) -> MpdSongV {
        MpdSongV {
            file_path: self.file_path@,
            title: opt_string_view(self.title),
            artist: opt_string_view(self.artist),
            album: opt_string_view(self.album),
            duration: self.duration,
        }
    }
}

/// MPD subsystems that `idle` can report as changed.
#[derive(Debug, Clone, Copy, PartialEq, Eq, Hash, Structural)]
pub enum IdleSubsystem {
    Database,
    Update,
    StoredPlaylist,
    Playlist,
    Player,
    Mixer,
    Output,
    Options,
    Partition,
    Sticker,
    Subscription,
    Message,
    Neighbor,
    Mount,
}

/// One `key: value` line of an MPD response body.
#[derive(Debug, Clone)]
pub struct Field {
    pub key: String,
    pub value: String,
}

impl View for Field {
    type V = (Seq<char>, Seq<char>);

    open spec fn view(&self) -> (Seq<char>, Seq<char>) {
        (self.key@, self.value@)
    }
}

/// The views of a sequence of fields.
pub open spec fn fields_view(fields: Seq<Field>) -> Seq<(Seq<char>, Seq<char>)> {
    fields.map_values(|f: Field| f@)
}

/// What reading a field's text as a (possibly fractional) number of seconds
/// gave: the text is not a number, the number is not a finite non-negative
/// length, or it is the given length.
#[derive(Debug, Clone, Copy, PartialEq, Eq, Structural)]
pub enum SecondsReading {
    Unparseable,
    OutOfRange,
    Value(Span),
}

}
