//! Transport commands the warden sends to MPD, and the `idle` subprotocol.
use vstd::prelude::*;

use crate::mpd_types::{fields_view, Field, IdleSubsystem};
use crate::span::{nanos_per_sec, Span};
use crate::text::{decimal, push_char, str_eq, u64_decimal};

verus! {

/// What the warden asks the playback supervisor to do.
#[derive(Debug, Clone, Copy, PartialEq, Eq, Structural)]
pub enum PlaybackCommand {
    Play,
    /// Play the song at this zero-based queue position.
    PlayPosition(u32),
    /// Pause (`true`) or resume (`false`).
    Pause(bool),
    Stop,
    Next,
    Previous,
    /// Seek within the current song to this position.
    Seek(Span),
    /// Set the volume, 0-100.
    SetVolume(u8),
}

/// `n` as exactly three decimal digits, with leading zeros.
pub open spec fn three_digits(n: nat) -> Seq<char> {
    seq![
        crate::text::digit_char(n / 100),
        crate::text::digit_char((n / 10) % 10),
        crate::text::digit_char(n % 10),
    ]
}

/// A position as MPD reads it: whole seconds, a dot, then milliseconds.
pub open spec fn seconds_text(s: Span) -> Seq<char> {
    decimal(s@ / nanos_per_sec()) + seq!['.'] + three_digits((s@ % nanos_per_sec()) / 1_000_000)
}

pub open spec fn strings_of(v: Seq<String>) -> Seq<Seq<char>> {
    v.map_values(|s: String| s@)
}

/// The MPD command name and arguments for a playback command.
pub open spec fn command_words(cmd: PlaybackCommand) -> (Seq<char>, Seq<Seq<char>>) {
    match cmd {
        PlaybackCommand::Play => ("play"@, seq![]),
        PlaybackCommand::PlayPosition(p) => ("play"@, seq![decimal(p as nat)]),
        PlaybackCommand::Pause(b) => ("pause"@, seq![if b { seq!['1'] } else { seq!['0'] }]),
        PlaybackCommand::Stop => ("stop"@, seq![]),
        PlaybackCommand::Next => ("next"@, seq![]),
        PlaybackCommand::Previous => ("previous"@, seq![]),
        PlaybackCommand::Seek(s) => ("seekcur"@, seq![seconds_text(s)]),
        PlaybackCommand::SetVolume(v) => ("setvol"@, seq![decimal(v as nat)]),
    }
}

fn digit(d: u64) -> (c: char)
    requires
        d < 10,
    ensures
        c == crate::text::digit_char(d as nat),
{
    let b: u8 = 48u8 + (d as u8);
    b as char
}

/// `seconds_text`, computed.
pub fn seek_position_text(s: &Span) -> (r: String)
    ensures
        r@ == seconds_text(*s),
{
    let mut out = u64_decimal(s.as_secs());
    push_char(&mut out, '.');
    let ms = (s.subsec_nanos() / 1_000_000) as u64;
    push_char(&mut out, digit(ms / 100));
    push_char(&mut out, digit((ms / 10) % 10));
    push_char(&mut out, digit(ms % 10));
    assert(out@ =~= seconds_text(*s));
    out
}

fn one(s: String) -> (r: Vec<String>)
    ensures
        strings_of(r@) == seq![s@],
{
    let mut v: Vec<String> = Vec::new();
    v.push(s);
    assert(strings_of(v@) =~= seq![s@]);
    v
}

/// The command line words for `cmd`.
pub fn command_request(cmd: &PlaybackCommand) -> (r: (&'static str, Vec<String>))
    ensures
        r.0@ == command_words(*cmd).0,
        strings_of(r.1@) == command_words(*cmd).1,
{
    match cmd {
        PlaybackCommand::Play => {
            let v: Vec<String> = Vec::new();
            assert(strings_of(v@) =~= Seq::<Seq<char>>::empty());
            ("play", v)
        },
        PlaybackCommand::PlayPosition(p) => ("play", one(u64_decimal(*p as u64))),
        PlaybackCommand::Pause(b) => {
            proof {
                reveal_strlit("1");
                reveal_strlit("0");
            }
            let t = if *b {
                "1".to_owned()
            } else {
                "0".to_owned()
            };
            assert(t@ =~= (if *b { seq!['1'] } else { seq!['0'] }));
            ("pause", one(t))
        },
        PlaybackCommand::Stop => {
            let v: Vec<String> = Vec::new();
            assert(strings_of(v@) =~= Seq::<Seq<char>>::empty());
            ("stop", v)
        },
        PlaybackCommand::Next => {
            let v: Vec<String> = Vec::new();
            assert(strings_of(v@) =~= Seq::<Seq<char>>::empty());
            ("next", v)
        },
        PlaybackCommand::Previous => {
            let v: Vec<String> = Vec::new();
            assert(strings_of(v@) =~= Seq::<Seq<char>>::empty());
            ("previous", v)
        },
        PlaybackCommand::Seek(s) => ("seekcur", one(seek_position_text(s))),
        PlaybackCommand::SetVolume(v) => ("setvol", one(u64_decimal(*v as u64))),
    }
}

/// The protocol name of a subsystem.
pub open spec fn subsystem_name(s: IdleSubsystem) -> Seq<char> {
    match s {
        IdleSubsystem::Database => "database"@,
        IdleSubsystem::Update => "update"@,
        IdleSubsystem::StoredPlaylist => "stored_playlist"@,
        IdleSubsystem::Playlist => "playlist"@,
        IdleSubsystem::Player => "player"@,
        IdleSubsystem::Mixer => "mixer"@,
        IdleSubsystem::Output => "output"@,
        IdleSubsystem::Options => "options"@,
        IdleSubsystem::Partition => "partition"@,
        IdleSubsystem::Sticker => "sticker"@,
        IdleSubsystem::Subscription => "subscription"@,
        IdleSubsystem::Message => "message"@,
        IdleSubsystem::Neighbor => "neighbor"@,
        IdleSubsystem::Mount => "mount"@,
    }
}

/// The subsystem a protocol name denotes, if any.
pub open spec fn subsystem_named(v: Seq<char>) -> Option<IdleSubsystem> {
    if v == "database"@ {
        Some(IdleSubsystem::Database)
    } else if v == "update"@ {
        Some(IdleSubsystem::Update)
    } else if v == "stored_playlist"@ {
        Some(IdleSubsystem::StoredPlaylist)
    } else if v == "playlist"@ {
        Some(IdleSubsystem::Playlist)
    } else if v == "player"@ {
        Some(IdleSubsystem::Player)
    } else if v == "mixer"@ {
        Some(IdleSubsystem::Mixer)
    } else if v == "output"@ {
        Some(IdleSubsystem::Output)
    } else if v == "options"@ {
        Some(IdleSubsystem::Options)
    } else if v == "partition"@ {
        Some(IdleSubsystem::Partition)
    } else if v == "sticker"@ {
        Some(IdleSubsystem::Sticker)
    } else if v == "subscription"@ {
        Some(IdleSubsystem::Subscription)
    } else if v == "message"@ {
        Some(IdleSubsystem::Message)
    } else if v == "neighbor"@ {
        Some(IdleSubsystem::Neighbor)
    } else if v == "mount"@ {
        Some(IdleSubsystem::Mount)
    } else {
        None
    }
}

pub fn subsystem_str(s: IdleSubsystem) -> (r: &'static str)
    ensures
        r@ == subsystem_name(s),
{
    match s {
        IdleSubsystem::Database => "database",
        IdleSubsystem::Update => "update",
        IdleSubsystem::StoredPlaylist => "stored_playlist",
        IdleSubsystem::Playlist => "playlist",
        IdleSubsystem::Player => "player",
        IdleSubsystem::Mixer => "mixer",
        IdleSubsystem::Output => "output",
        IdleSubsystem::Options => "options",
        IdleSubsystem::Partition => "partition",
        IdleSubsystem::Sticker => "sticker",
        IdleSubsystem::Subscription => "subscription",
        IdleSubsystem::Message => "message",
        IdleSubsystem::Neighbor => "neighbor",
        IdleSubsystem::Mount => "mount",
    }
}

fn subsystem_from(v: &str) -> (r: Option<IdleSubsystem>)
    ensures
        r == subsystem_named(v@),
{
    if str_eq(v, "database") {
        Some(IdleSubsystem::Database)
    } else if str_eq(v, "update") {
        Some(IdleSubsystem::Update)
    } else if str_eq(v, "stored_playlist") {
        Some(IdleSubsystem::StoredPlaylist)
    } else if str_eq(v, "playlist") {
        Some(IdleSubsystem::Playlist)
    } else if str_eq(v, "player") {
        Some(IdleSubsystem::Player)
    } else if str_eq(v, "mixer") {
        Some(IdleSubsystem::Mixer)
    } else if str_eq(v, "output") {
        Some(IdleSubsystem::Output)
    } else if str_eq(v, "options") {
        Some(IdleSubsystem::Options)
    } else if str_eq(v, "partition") {
        Some(IdleSubsystem::Partition)
    } else if str_eq(v, "sticker") {
        Some(IdleSubsystem::Sticker)
    } else if str_eq(v, "subscription") {
        Some(IdleSubsystem::Subscription)
    } else if str_eq(v, "message") {
        Some(IdleSubsystem::Message)
    } else if str_eq(v, "neighbor") {
        Some(IdleSubsystem::Neighbor)
    } else if str_eq(v, "mount") {
        Some(IdleSubsystem::Mount)
    } else {
        None
    }
}

/// The arguments of an `idle` call waiting on `subsystems`.
pub fn idle_arguments(subsystems: &[IdleSubsystem]) -> (r: Vec<String>)
    ensures
        strings_of(r@) == subsystems@.map_values(|s: IdleSubsystem| subsystem_name(s)),
{
    let mut out: Vec<String> = Vec::new();
    let n = subsystems.len();
    let mut i: usize = 0;
    while i < n
        invariant
            i <= n,
            n == subsystems@.len(),
            strings_of(out@) =~= subsystems@.take(i as int).map_values(
                |s: IdleSubsystem| subsystem_name(s),
            ),
        decreases n - i,
    {
        let ghost before = out@;
        let name = subsystem_str(subsystems[i]).to_owned();
        out.push(name);
        assert(out@ == before.push(name));
        assert(strings_of(out@) =~= strings_of(before).push(name@));
        assert(subsystems@.take(i + 1) =~= subsystems@.take(i as int).push(subsystems@[i as int]));
        i += 1;
    }
    assert(subsystems@.take(n as int) =~= subsystems@);
    out
}

/// The subsystems an `idle` response names, in order: every `changed:`
/// field whose value is a known subsystem.
pub open spec fn changed_spec(fields: Seq<(Seq<char>, Seq<char>)>) -> Seq<IdleSubsystem>
    decreases fields.len(),
{
    if fields.len() == 0 {
        seq![]
    } else {
        let rest = changed_spec(fields.drop_last());
        let (k, v) = fields.last();
        if k == "changed"@ && subsystem_named(v) is Some {
            rest.push(subsystem_named(v)->0)
        } else {
            rest
        }
    }
}

/// Reads the body of an `idle` response.
pub fn changed_subsystems(fields: &[Field]) -> (r: Vec<IdleSubsystem>)
    ensures
        r@ == changed_spec(fields_view(fields@)),
{
    let ghost fv = fields_view(fields@);
    let mut out: Vec<IdleSubsystem> = Vec::new();
    let n = fields.len();
    let mut i: usize = 0;
    while i < n
        invariant
            i <= n,
            n == fields@.len(),
            fv == fields_view(fields@),
            out@ == changed_spec(fv.take(i as int)),
        decreases n - i,
    {
        assert(fv.take(i + 1).drop_last() =~= fv.take(i as int));
        assert(fv.take(i + 1).last() == fields@[i as int]@);
        let f = &fields[i];
        if str_eq(f.key.as_str(), "changed") {
            match subsystem_from(f.value.as_str()) {
                Some(s) => out.push(s),
                None => {},
            }
        }
        i += 1;
    }
    assert(fv.take(n as int) =~= fv);
    out
}

/// Each playback command goes to MPD as its own protocol word: `play`
/// (with the queue position, when given), `pause 1` / `pause 0`, `stop`,
/// `next`, `previous`, `seekcur` with one position, `setvol` with the
/// volume.
pub proof fn commands_use_their_mpd_words(p: u32, v: u8, s: Span)
    ensures
        command_words(PlaybackCommand::Play) == ("play"@, Seq::<Seq<char>>::empty()),
        command_words(PlaybackCommand::PlayPosition(p)) == ("play"@, seq![decimal(p as nat)]),
        command_words(PlaybackCommand::Pause(true)) == ("pause"@, seq!["1"@]),
        command_words(PlaybackCommand::Pause(false)) == ("pause"@, seq!["0"@]),
        command_words(PlaybackCommand::Stop) == ("stop"@, Seq::<Seq<char>>::empty()),
        command_words(PlaybackCommand::Next) == ("next"@, Seq::<Seq<char>>::empty()),
        command_words(PlaybackCommand::Previous) == ("previous"@, Seq::<Seq<char>>::empty()),
        command_words(PlaybackCommand::Seek(s)).0 == "seekcur"@,
        command_words(PlaybackCommand::Seek(s)).1.len() == 1,
        command_words(PlaybackCommand::SetVolume(v)) == ("setvol"@, seq![decimal(v as nat)]),
{
    reveal_strlit("1");
    reveal_strlit("0");
    assert(seq!['1'] =~= "1"@);
    assert(seq!['0'] =~= "0"@);
    assert(seq![decimal(p as nat)] =~= command_words(PlaybackCommand::PlayPosition(p)).1);
}

/// The two commands that move through the queue are told apart: `next`
/// and `previous` are different words.
pub proof fn next_and_previous_differ()
    ensures
        command_words(PlaybackCommand::Next).0 != command_words(PlaybackCommand::Previous).0,
        command_words(PlaybackCommand::Stop).0 != command_words(PlaybackCommand::Pause(true)).0,
{
    reveal_strlit("next");
    reveal_strlit("previous");
    reveal_strlit("stop");
    reveal_strlit("pause");
    assert("next"@.len() != "previous"@.len());
    assert("stop"@[0] != "pause"@[1] || "stop"@.len() != "pause"@.len());
}

/// Length and leading letters of each subsystem name, which tell the names
/// apart.
proof fn lemma_subsystem_name_letters()
    ensures
        "database"@.len() == 8,
        "database"@[0] == 'd',
        "update"@.len() == 6,
        "update"@[0] == 'u',
        "stored_playlist"@.len() == 15,
        "stored_playlist"@[0] == 's',
        "playlist"@.len() == 8,
        "playlist"@[0] == 'p',
        "player"@.len() == 6,
        "player"@[0] == 'p',
        "mixer"@.len() == 5,
        "mixer"@[0] == 'm',
        "mixer"@[1] == 'i',
        "output"@.len() == 6,
        "output"@[0] == 'o',
        "options"@.len() == 7,
        "options"@[0] == 'o',
        "partition"@.len() == 9,
        "partition"@[0] == 'p',
        "sticker"@.len() == 7,
        "sticker"@[0] == 's',
        "subscription"@.len() == 12,
        "subscription"@[0] == 's',
        "message"@.len() == 7,
        "message"@[0] == 'm',
        "neighbor"@.len() == 8,
        "neighbor"@[0] == 'n',
        "mount"@.len() == 5,
        "mount"@[0] == 'm',
        "mount"@[1] == 'o',
{
    reveal_strlit("database");
    reveal_strlit("update");
    reveal_strlit("stored_playlist");
    reveal_strlit("playlist");
    reveal_strlit("player");
    reveal_strlit("mixer");
    reveal_strlit("output");
    reveal_strlit("options");
    reveal_strlit("partition");
    reveal_strlit("sticker");
    reveal_strlit("subscription");
    reveal_strlit("message");
    reveal_strlit("neighbor");
    reveal_strlit("mount");
}

/// Reading a subsystem's protocol name gives that subsystem back, for
/// every subsystem; so a `changed: <name>` line for it is never dropped.
pub proof fn subsystem_name_reads_back(s: IdleSubsystem)
    ensures
        subsystem_named(subsystem_name(s)) == Some(s),
{
    lemma_subsystem_name_letters();
}

/// The protocol names MPD uses for the subsystems.
pub proof fn subsystem_names_are_mpd_names()
    ensures
        subsystem_name(IdleSubsystem::Database) == "database"@,
        subsystem_name(IdleSubsystem::Update) == "update"@,
        subsystem_name(IdleSubsystem::StoredPlaylist) == "stored_playlist"@,
        subsystem_name(IdleSubsystem::Playlist) == "playlist"@,
        subsystem_name(IdleSubsystem::Player) == "player"@,
        subsystem_name(IdleSubsystem::Mixer) == "mixer"@,
        subsystem_name(IdleSubsystem::Output) == "output"@,
        subsystem_name(IdleSubsystem::Options) == "options"@,
        subsystem_name(IdleSubsystem::Partition) == "partition"@,
        subsystem_name(IdleSubsystem::Sticker) == "sticker"@,
        subsystem_name(IdleSubsystem::Subscription) == "subscription"@,
        subsystem_name(IdleSubsystem::Message) == "message"@,
        subsystem_name(IdleSubsystem::Neighbor) == "neighbor"@,
        subsystem_name(IdleSubsystem::Mount) == "mount"@,
{
}

/// An idle reply naming one subsystem as changed reports exactly that
/// subsystem, whichever it is.
pub proof fn changed_line_reports_its_subsystem(s: IdleSubsystem)
    ensures
        changed_spec(seq![("changed"@, subsystem_name(s))]) == seq![s],
{
    subsystem_name_reads_back(s);
    let f = seq![("changed"@, subsystem_name(s))];
    assert(f.drop_last() =~= Seq::<(Seq<char>, Seq<char>)>::empty());
    assert(changed_spec(f.drop_last()) =~= Seq::<IdleSubsystem>::empty());
    assert(f.last() == ("changed"@, subsystem_name(s)));
    assert(changed_spec(f) == changed_spec(f.drop_last()).push(s));
    assert(Seq::<IdleSubsystem>::empty().push(s) =~= seq![s]);
}

}
