//! The playback state report sent to the steward after every change, and
//! its TOML text.
use vstd::prelude::*;

use crate::mpd_types::{opt_string_view, MpdSong, MpdStatus, PlayState};
use crate::span::Span;
use crate::text::{decimal, push_char, u128_decimal, u64_decimal};

verus! {

/// One snapshot of the player, from `status` and `currentsong`.
#[derive(Debug, Clone)]
pub struct PlaybackStateReport {
    pub state: PlayState,
    pub song_position: Option<u32>,
    pub elapsed_ms: Option<u128>,
    /// From `status`, or from the song when `status` has none.
    pub duration_ms: Option<u128>,
    pub volume: Option<u8>,
    pub file: Option<String>,
    pub title: Option<String>,
    pub artist: Option<String>,
    pub album: Option<String>,
}

pub open spec fn ms_of(s: Option<Span>) -> Option<u128> {
    match s {
        Some(d) => Some((d@ / 1_000_000) as u128),
        None => None,
    }
}

fn millis(s: Option<Span>) -> (r: Option<u128>)
    ensures
        r == ms_of(s),
{
    match s {
        Some(d) => Some(d.as_millis()),
        None => None,
    }
}

fn clone_opt(s: &Option<String>) -> (r: Option<String>)
    ensures
        opt_string_view(r) == opt_string_view(*s),
{
    match s {
        Some(t) => Some(t.clone()),
        None => None,
    }
}

pub open spec fn state_word(s: PlayState) -> Seq<char> {
    match s {
        PlayState::Playing => "playing"@,
        PlayState::Paused => "paused"@,
        PlayState::Stopped => "stopped"@,
    }
}

pub open spec fn hex_digit(d: nat) -> char {
    if d < 10 {
        ('0' as nat + d) as char
    } else {
        ('A' as nat + (d - 10)) as char
    }
}

/// How one character appears inside a TOML basic string.
pub open spec fn toml_char(c: char) -> Seq<char> {
    if c == '"' {
        seq!['\\', '"']
    } else if c == '\\' {
        seq!['\\', '\\']
    } else if c == '\n' {
        seq!['\\', 'n']
    } else if c == '\t' {
        seq!['\\', 't']
    } else if c == '\r' {
        seq!['\\', 'r']
    } else if (c as u32) < 0x20 || (c as u32) == 0x7f {
        seq!['\\', 'u', '0', '0', hex_digit((c as u32) as nat / 16), hex_digit((c as u32) as nat % 16)]
    } else {
        seq![c]
    }
}

pub open spec fn toml_escaped(s: Seq<char>) -> Seq<char>
    decreases s.len(),
{
    if s.len() == 0 {
        seq![]
    } else {
        toml_escaped(s.drop_last()) + toml_char(s.last())
    }
}

/// `key = "<escaped>"` and a newline.
pub open spec fn string_line(key: Seq<char>, v: Option<Seq<char>>) -> Seq<char> {
    match v {
        Some(t) => key + " = \""@ + toml_escaped(t) + "\"\n"@,
        None => seq![],
    }
}

/// `key = <n>` and a newline.
pub open spec fn number_line(key: Seq<char>, v: Option<nat>) -> Seq<char> {
    match v {
        Some(n) => key + " = "@ + decimal(n) + "\n"@,
        None => seq![],
    }
}

pub open spec fn u32_nat(v: Option<u32>) -> Option<nat> {
    match v {
        Some(x) => Some(x as nat),
        None => None,
    }
}

pub open spec fn u128_nat(v: Option<u128>) -> Option<nat> {
    match v {
        Some(x) => Some(x as nat),
        None => None,
    }
}

pub open spec fn u8_nat(v: Option<u8>) -> Option<nat> {
    match v {
        Some(x) => Some(x as nat),
        None => None,
    }
}

/// The report's TOML text: `state` always, then each present field, one
/// `key = value` line each, in declaration order.
pub open spec fn report_text(r: PlaybackStateReport) -> Seq<char> {
    "state = \""@ + state_word(r.state) + "\"\n"@ + number_line(
        "song_position"@,
        u32_nat(r.song_position),
    ) + number_line("elapsed_ms"@, u128_nat(r.elapsed_ms)) + number_line(
        "duration_ms"@,
        u128_nat(r.duration_ms),
    ) + number_line("volume"@, u8_nat(r.volume)) + string_line("file"@, opt_string_view(r.file))
        + string_line("title"@, opt_string_view(r.title)) + string_line(
        "artist"@,
        opt_string_view(r.artist),
    ) + string_line("album"@, opt_string_view(r.album))
}

fn hex(d: u32) -> (c: char)
    requires
        d < 16,
    ensures
        c == hex_digit(d as nat),
{
    if d < 10 {
        let b: u8 = 48u8 + (d as u8);
        b as char
    } else {
        let b: u8 = 65u8 + ((d - 10) as u8);
        b as char
    }
}

fn push_toml_char(out: &mut String, c: char)
    ensures
        final(out)@ == old(out)@ + toml_char(c),
{
    if c == '"' {
        push_char(out, '\\');
        push_char(out, '"');
    } else if c == '\\' {
        push_char(out, '\\');
        push_char(out, '\\');
    } else if c == '\n' {
        push_char(out, '\\');
        push_char(out, 'n');
    } else if c == '\t' {
        push_char(out, '\\');
        push_char(out, 't');
    } else if c == '\r' {
        push_char(out, '\\');
        push_char(out, 'r');
    } else if (c as u32) < 0x20 || (c as u32) == 0x7f {
        let v = c as u32;
        push_char(out, '\\');
        push_char(out, 'u');
        push_char(out, '0');
        push_char(out, '0');
        push_char(out, hex(v / 16));
        push_char(out, hex(v % 16));
    } else {
        push_char(out, c);
    }
    assert(final(out)@ =~= old(out)@ + toml_char(c));
}

fn push_string_line(out: &mut String, key: &str, v: &Option<String>)
    ensures
        final(out)@ == old(out)@ + string_line(key@, opt_string_view(*v)),
{
    match v {
        None => {
            assert(old(out)@ + string_line(key@, opt_string_view(*v)) =~= old(out)@);
        },
        Some(t) => {
            let ghost start = out@;
            out.append(key);
            out.append(" = \"");
            let ghost mid = out@;
            let n = t.as_str().unicode_len();
            let mut i: usize = 0;
            while i < n
                invariant
                    i <= n,
                    n == t@.len(),
                    out@ == mid + toml_escaped(t@.take(i as int)),
                decreases n - i,
            {
                let c = t.as_str().get_char(i);
                assert(t@.take(i + 1).drop_last() =~= t@.take(i as int));
                push_toml_char(out, c);
                assert(out@ =~= mid + toml_escaped(t@.take(i + 1)));
                i += 1;
            }
            assert(t@.take(n as int) =~= t@);
            out.append("\"\n");
            assert(out@ =~= start + string_line(key@, opt_string_view(*v)));
        },
    }
}

fn push_number_line(out: &mut String, key: &str, v: Option<u128>)
    ensures
        final(out)@ == old(out)@ + number_line(key@, u128_nat(v)),
{
    match v {
        None => {
            assert(old(out)@ + number_line(key@, u128_nat(v)) =~= old(out)@);
        },
        Some(n) => {
            out.append(key);
            out.append(" = ");
            let d = u128_decimal(n);
            out.append(d.as_str());
            out.append("\n");
            assert(final(out)@ =~= old(out)@ + number_line(key@, u128_nat(v)));
        },
    }
}

fn widen32(v: Option<u32>) -> (r: Option<u128>)
    ensures
        u128_nat(r) == u32_nat(v),
{
    match v {
        Some(x) => Some(x as u128),
        None => None,
    }
}

fn widen8(v: Option<u8>) -> (r: Option<u128>)
    ensures
        u128_nat(r) == u8_nat(v),
{
    match v {
        Some(x) => Some(x as u128),
        None => None,
    }
}

impl PlaybackStateReport {
    /// The snapshot of a `status` and a `currentsong` answer.
    pub fn from_mpd(status: MpdStatus, song: Option<MpdSong>) -> (r: PlaybackStateReport)
        ensures
            r.state == status.state,
            r.song_position == status.song_position,
            r.elapsed_ms == ms_of(status.elapsed),
            r.volume == status.volume,
            r.duration_ms == ms_of(
                match status.duration {
                    Some(d) => Some(d),
                    None => match song {
                        Some(s) => s.duration,
                        None => None,
                    },
                },
            ),
            opt_string_view(r.file) == match song {
                Some(s) => Some(s.file_path@),
                None => None,
            },
            opt_string_view(r.title) == match song {
                Some(s) => opt_string_view(s.title),
                None => None,
            },
            opt_string_view(r.artist) == match song {
                Some(s) => opt_string_view(s.artist),
                None => None,
            },
            opt_string_view(r.album) == match song {
                Some(s) => opt_string_view(s.album),
                None => None,
            },
    {
        let duration = match status.duration {
            Some(d) => Some(d),
            None => match &song {
                Some(s) => s.duration,
                None => None,
            },
        };
        match song {
            Some(s) => PlaybackStateReport {
                state: status.state,
                song_position: status.song_position,
                elapsed_ms: millis(status.elapsed),
                duration_ms: millis(duration),
                volume: status.volume,
                file: Some(s.file_path),
                title: s.title,
                artist: s.artist,
                album: s.album,
            },
            None => PlaybackStateReport {
                state: status.state,
                song_position: status.song_position,
                elapsed_ms: millis(status.elapsed),
                duration_ms: millis(duration),
                volume: status.volume,
                file: None,
                title: None,
                artist: None,
                album: None,
            },
        }
    }

    /// The report as TOML text.
    pub fn serialise(&self) -> (s: String)
        ensures
            s@ == report_text(*self),
    {
        let mut out = "state = \"".to_owned();
        let word = match self.state {
            PlayState::Playing => "playing",
            PlayState::Paused => "paused",
            PlayState::Stopped => "stopped",
        };
        out.append(word);
        out.append("\"\n");
        push_number_line(&mut out, "song_position", widen32(self.song_position));
        push_number_line(&mut out, "elapsed_ms", self.elapsed_ms);
        push_number_line(&mut out, "duration_ms", self.duration_ms);
        push_number_line(&mut out, "volume", widen8(self.volume));
        push_string_line(&mut out, "file", &self.file);
        push_string_line(&mut out, "title", &self.title);
        push_string_line(&mut out, "artist", &self.artist);
        push_string_line(&mut out, "album", &self.album);
        assert(out@ =~= report_text(*self));
        out
    }
}

}
