//! Projection of MPD response fields into the narrow `status` and
//! `currentsong` views.
use vstd::prelude::*;

use crate::mpd_error::{MpdError, MpdErrorV, ProtocolError, ProtocolErrorV};
use crate::mpd_types::{
    fields_view, opt_string_view, Field, MpdSong, MpdSongV, MpdStatus, PlayState, SecondsReading,
};
use crate::span::{span_of_secs, Span};
use crate::text::{parse_i32, parse_signed_spec, parse_u32, parse_u64, parse_unsigned_spec, str_eq};

verus! {

/// Lifts a protocol-level outcome to an `MpdError`-level one.
pub open spec fn lift_protocol<T>(r: Result<T, ProtocolErrorV>) -> Result<T, MpdErrorV> {
    match r {
        Ok(v) => Ok(v),
        Err(e) => Err(MpdErrorV::Protocol(e)),
    }
}

/// The view of an outcome whose success value needs no view.
pub open spec fn mpd_result<T>(r: Result<T, MpdError>) -> Result<T, MpdErrorV> {
    match r {
        Ok(v) => Ok(v),
        Err(e) => Err(e@),
    }
}

pub open spec fn play_state_of(value: Seq<char>) -> Option<PlayState> {
    if value == "play"@ {
        Some(PlayState::Playing)
    } else if value == "pause"@ {
        Some(PlayState::Paused)
    } else if value == "stop"@ {
        Some(PlayState::Stopped)
    } else {
        None
    }
}

pub open spec fn u32_field_spec(field: Seq<char>, value: Seq<char>) -> Result<u32, ProtocolErrorV> {
    match parse_unsigned_spec(value, u32::MAX as nat) {
        Some(n) => Ok(n as u32),
        None => Err(ProtocolErrorV::UnparseableField { field, value }),
    }
}

pub open spec fn seconds_field_spec(
    field: Seq<char>,
    value: Seq<char>,
    reading: SecondsReading,
) -> Result<Option<Span>, ProtocolErrorV> {
    match reading {
        SecondsReading::Unparseable => Err(ProtocolErrorV::UnparseableField { field, value }),
        SecondsReading::OutOfRange => Ok(None),
        SecondsReading::Value(s) => Ok(Some(s)),
    }
}

pub open spec fn volume_field_spec(value: Seq<char>) -> Result<Option<u8>, ProtocolErrorV> {
    match parse_signed_spec(value, 0x8000_0000, i32::MAX as nat) {
        None => Err(ProtocolErrorV::UnparseableField { field: "volume"@, value }),
        Some(v) => if 0 <= v <= 100 {
            Ok(Some(v as u8))
        } else {
            Ok(None)
        },
    }
}

/// `status` fields gathered so far.
pub struct StatusDraft {
    pub state: Option<PlayState>,
    pub song_position: Option<u32>,
    pub elapsed: Option<Span>,
    pub duration: Option<Span>,
    pub volume: Option<u8>,
}

pub open spec fn status_step(
    d: StatusDraft,
    key: Seq<char>,
    value: Seq<char>,
    reading: SecondsReading,
) -> Result<StatusDraft, ProtocolErrorV> {
    if key == "state"@ {
        match play_state_of(value) {
            Some(p) => Ok(StatusDraft { state: Some(p), ..d }),
            None => Err(ProtocolErrorV::UnknownPlayState(value)),
        }
    } else if key == "song"@ {
        match u32_field_spec("song"@, value) {
            Ok(n) => Ok(StatusDraft { song_position: Some(n), ..d }),
            Err(e) => Err(e),
        }
    } else if key == "elapsed"@ {
        match seconds_field_spec("elapsed"@, value, reading) {
            Ok(x) => Ok(StatusDraft { elapsed: x, ..d }),
            Err(e) => Err(e),
        }
    } else if key == "duration"@ {
        match seconds_field_spec("duration"@, value, reading) {
            Ok(x) => Ok(StatusDraft { duration: x, ..d }),
            Err(e) => Err(e),
        }
    } else if key == "volume"@ {
        match volume_field_spec(value) {
            Ok(x) => Ok(StatusDraft { volume: x, ..d }),
            Err(e) => Err(e),
        }
    } else {
        Ok(d)
    }
}

/// Fields read in order; the first failure ends the reading.
pub open spec fn status_fold(
    fields: Seq<(Seq<char>, Seq<char>)>,
    readings: Seq<SecondsReading>,
) -> Result<StatusDraft, ProtocolErrorV>
    decreases fields.len(),
{
    if fields.len() == 0 {
        Ok(StatusDraft { state: None, song_position: None, elapsed: None, duration: None, volume: None })
    } else {
        match status_fold(fields.drop_last(), readings.drop_last()) {
            Err(e) => Err(e),
            Ok(d) => status_step(d, fields.last().0, fields.last().1, readings.last()),
        }
    }
}

/// The `status` view of a response body: every listed field read in order,
/// unknown keys ignored, `state` required.
pub open spec fn status_spec(
    fields: Seq<(Seq<char>, Seq<char>)>,
    readings: Seq<SecondsReading>,
) -> Result<MpdStatus, ProtocolErrorV> {
    match status_fold(fields, readings) {
        Err(e) => Err(e),
        Ok(d) => match d.state {
            None => Err(ProtocolErrorV::MissingField { field: "state"@ }),
            Some(st) => Ok(
                MpdStatus {
                    state: st,
                    song_position: d.song_position,
                    elapsed: d.elapsed,
                    duration: d.duration,
                    volume: d.volume,
                },
            ),
        },
    }
}

/// `currentsong` fields gathered so far.
pub struct SongDraft {
    pub file_path: Option<Seq<char>>,
    pub title: Option<Seq<char>>,
    pub artist: Option<Seq<char>>,
    pub album: Option<Seq<char>>,
    pub duration: Option<Span>,
}

pub open spec fn song_step(
    d: SongDraft,
    key: Seq<char>,
    value: Seq<char>,
    reading: SecondsReading,
) -> Result<SongDraft, ProtocolErrorV> {
    if key == "file"@ {
        Ok(SongDraft { file_path: Some(value), ..d })
    } else if key == "Title"@ {
        Ok(SongDraft { title: Some(value), ..d })
    } else if key == "Artist"@ {
        Ok(SongDraft { artist: Some(value), ..d })
    } else if key == "Album"@ {
        Ok(SongDraft { album: Some(value), ..d })
    } else if key == "duration"@ {
        match seconds_field_spec("duration"@, value, reading) {
            Ok(x) => Ok(SongDraft { duration: x, ..d }),
            Err(e) => Err(e),
        }
    } else if key == "Time"@ {
        if d.duration is None {
            match parse_unsigned_spec(value, u64::MAX as nat) {
                Some(secs) => Ok(SongDraft { duration: Some(span_of_secs(secs)), ..d }),
                None => Ok(d),
            }
        } else {
            Ok(d)
        }
    } else {
        Ok(d)
    }
}

pub open spec fn song_fold(
    fields: Seq<(Seq<char>, Seq<char>)>,
    readings: Seq<SecondsReading>,
) -> Result<SongDraft, ProtocolErrorV>
    decreases fields.len(),
{
    if fields.len() == 0 {
        Ok(SongDraft { file_path: None, title: None, artist: None, album: None, duration: None })
    } else {
        match song_fold(fields.drop_last(), readings.drop_last()) {
            Err(e) => Err(e),
            Ok(d) => song_step(d, fields.last().0, fields.last().1, readings.last()),
        }
    }
}

/// The `currentsong` view of a response body: no song for an empty body or
/// one without `file`; `Time` (whole seconds) only when no `duration` came
/// before it.
pub open spec fn current_song_spec(
    fields: Seq<(Seq<char>, Seq<char>)>,
    readings: Seq<SecondsReading>,
) -> Result<Option<MpdSongV>, ProtocolErrorV> {
    if fields.len() == 0 {
        Ok(None)
    } else {
        match song_fold(fields, readings) {
            Err(e) => Err(e),
            Ok(d) => match d.file_path {
                None => Ok(None),
                Some(fp) => Ok(
                    Some(
                        MpdSongV {
                            file_path: fp,
                            title: d.title,
                            artist: d.artist,
                            album: d.album,
                            duration: d.duration,
                        },
                    ),
                ),
            },
        }
    }
}

pub open spec fn song_result_view(r: Result<Option<MpdSong>, MpdError>) -> Result<
    Option<MpdSongV>,
    MpdErrorV,
> {
    match r {
        Ok(Some(s)) => Ok(Some(s@)),
        Ok(None) => Ok(None),
        Err(e) => Err(e@),
    }
}

proof fn lemma_status_fold_stops(
    fv: Seq<(Seq<char>, Seq<char>)>,
    rd: Seq<SecondsReading>,
    k: int,
)
    requires
        0 <= k <= fv.len(),
        rd.len() == fv.len(),
        status_fold(fv.take(k), rd.take(k)) is Err,
    ensures
        status_fold(fv, rd) == status_fold(fv.take(k), rd.take(k)),
    decreases fv.len() - k,
{
    if k == fv.len() {
        assert(fv.take(k) =~= fv);
        assert(rd.take(k) =~= rd);
    } else {
        assert(fv.drop_last().take(k) =~= fv.take(k));
        assert(rd.drop_last().take(k) =~= rd.take(k));
        lemma_status_fold_stops(fv.drop_last(), rd.drop_last(), k);
    }
}

proof fn lemma_song_fold_stops(
    fv: Seq<(Seq<char>, Seq<char>)>,
    rd: Seq<SecondsReading>,
    k: int,
)
    requires
        0 <= k <= fv.len(),
        rd.len() == fv.len(),
        song_fold(fv.take(k), rd.take(k)) is Err,
    ensures
        song_fold(fv, rd) == song_fold(fv.take(k), rd.take(k)),
    decreases fv.len() - k,
{
    if k == fv.len() {
        assert(fv.take(k) =~= fv);
        assert(rd.take(k) =~= rd);
    } else {
        assert(fv.drop_last().take(k) =~= fv.take(k));
        assert(rd.drop_last().take(k) =~= rd.take(k));
        lemma_song_fold_stops(fv.drop_last(), rd.drop_last(), k);
    }
}

fn owned(s: &str) -> (r: String)
    ensures
        r@ == s@,
{
    s.to_owned()
}

/// A field that must hold a `u32`.
pub fn parse_u32_field(field: &'static str, value: &str) -> (r: Result<u32, MpdError>)
    ensures
        mpd_result(r) == lift_protocol(u32_field_spec(field@, value@)),
{
    match parse_u32(value) {
        Some(n) => Ok(n),
        None => Err(MpdError::Protocol(ProtocolError::UnparseableField { field, value: owned(value) })),
    }
}

/// A field that holds a length in seconds, already read as `reading`.
pub fn parse_duration_secs_field(
    field: &'static str,
    value: &str,
    reading: SecondsReading,
) -> (r: Result<Option<Span>, MpdError>)
    ensures
        mpd_result(r) == lift_protocol(seconds_field_spec(field@, value@, reading)),
{
    match reading {
        SecondsReading::Unparseable => Err(
            MpdError::Protocol(ProtocolError::UnparseableField { field, value: owned(value) }),
        ),
        SecondsReading::OutOfRange => Ok(None),
        SecondsReading::Value(s) => Ok(Some(s)),
    }
}

/// The `volume` field: MPD writes -1 when no mixer is configured; every
/// value outside 0-100 reads as unknown.
pub fn parse_volume_field(value: &str) -> (r: Result<Option<u8>, MpdError>)
    ensures
        mpd_result(r) == lift_protocol(volume_field_spec(value@)),
{
    match parse_i32(value) {
        None => Err(
            MpdError::Protocol(ProtocolError::UnparseableField { field: "volume", value: owned(value) }),
        ),
        Some(raw) => if 0 <= raw && raw <= 100 {
            Ok(Some(raw as u8))
        } else {
            Ok(None)
        },
    }
}


/// The `status` view of a response body. `readings[i]` is what reading
/// `fields[i].value` as seconds gave.
pub fn parse_status(fields: &[Field], readings: &[SecondsReading]) -> (r: Result<MpdStatus, MpdError>)
    requires
        readings@.len() == fields@.len(),
    ensures
        mpd_result(r) == lift_protocol(status_spec(fields_view(fields@), readings@)),
{
    let ghost fv = fields_view(fields@);
    let mut state: Option<PlayState> = None;
    let mut song_position: Option<u32> = None;
    let mut elapsed: Option<Span> = None;
    let mut duration: Option<Span> = None;
    let mut volume: Option<u8> = None;
    let n = fields.len();
    let mut i: usize = 0;
    assert(fv.take(0) =~= Seq::<(Seq<char>, Seq<char>)>::empty());
    assert(readings@.take(0) =~= Seq::<SecondsReading>::empty());
    while i < n
        invariant
            n == fields@.len(),
            readings@.len() == n,
            fv == fields_view(fields@),
            i <= n,
            status_fold(fv.take(i as int), readings@.take(i as int)) == Ok::<
                StatusDraft,
                ProtocolErrorV,
            >(StatusDraft { state, song_position, elapsed, duration, volume }),
        decreases n - i,
    {
        let f = &fields[i];
        let reading = readings[i];
        proof {
            assert(fv.take(i + 1).drop_last() =~= fv.take(i as int));
            assert(readings@.take(i + 1).drop_last() =~= readings@.take(i as int));
            assert(fv.take(i + 1).last() == f@);
            assert(readings@.take(i + 1).last() == reading);
        }
        let key = f.key.as_str();
        let value = f.value.as_str();
        if str_eq(key, "state") {
            if str_eq(value, "play") {
                state = Some(PlayState::Playing);
            } else if str_eq(value, "pause") {
                state = Some(PlayState::Paused);
            } else if str_eq(value, "stop") {
                state = Some(PlayState::Stopped);
            } else {
                proof {
                    lemma_status_fold_stops(fv, readings@, i + 1);
                }
                return Err(MpdError::Protocol(ProtocolError::UnknownPlayState(f.value.clone())));
            }
        } else if str_eq(key, "song") {
            match parse_u32_field("song", value) {
                Ok(p) => {
                    song_position = Some(p);
                },
                Err(e) => {
                    proof {
                        lemma_status_fold_stops(fv, readings@, i + 1);
                    }
                    return Err(e);
                },
            }
        } else if str_eq(key, "elapsed") {
            match parse_duration_secs_field("elapsed", value, reading) {
                Ok(x) => {
                    elapsed = x;
                },
                Err(e) => {
                    proof {
                        lemma_status_fold_stops(fv, readings@, i + 1);
                    }
                    return Err(e);
                },
            }
        } else if str_eq(key, "duration") {
            match parse_duration_secs_field("duration", value, reading) {
                Ok(x) => {
                    duration = x;
                },
                Err(e) => {
                    proof {
                        lemma_status_fold_stops(fv, readings@, i + 1);
                    }
                    return Err(e);
                },
            }
        } else if str_eq(key, "volume") {
            match parse_volume_field(value) {
                Ok(x) => {
                    volume = x;
                },
                Err(e) => {
                    proof {
                        lemma_status_fold_stops(fv, readings@, i + 1);
                    }
                    return Err(e);
                },
            }
        }
        i += 1;
    }
    assert(fv.take(n as int) =~= fv);
    assert(readings@.take(n as int) =~= readings@);
    match state {
        None => Err(MpdError::Protocol(ProtocolError::MissingField { field: "state" })),
        Some(st) => Ok(MpdStatus { state: st, song_position, elapsed, duration, volume }),
    }
}

/// The `currentsong` view of a response body. `readings[i]` is what reading
/// `fields[i].value` as seconds gave.
pub fn parse_current_song(fields: &[Field], readings: &[SecondsReading]) -> (r: Result<
    Option<MpdSong>,
    MpdError,
>)
    requires
        readings@.len() == fields@.len(),
    ensures
        song_result_view(r) == lift_protocol(current_song_spec(fields_view(fields@), readings@)),
{
    let n = fields.len();
    if n == 0 {
        return Ok(None);
    }
    let ghost fv = fields_view(fields@);
    let mut file_path: Option<String> = None;
    let mut title: Option<String> = None;
    let mut artist: Option<String> = None;
    let mut album: Option<String> = None;
    let mut duration: Option<Span> = None;
    let mut i: usize = 0;
    assert(fv.take(0) =~= Seq::<(Seq<char>, Seq<char>)>::empty());
    assert(readings@.take(0) =~= Seq::<SecondsReading>::empty());
    while i < n
        invariant
            n == fields@.len(),
            readings@.len() == n,
            fv == fields_view(fields@),
            i <= n,
            song_fold(fv.take(i as int), readings@.take(i as int)) == Ok::<SongDraft, ProtocolErrorV>(
                SongDraft {
                    file_path: opt_string_view(file_path),
                    title: opt_string_view(title),
                    artist: opt_string_view(artist),
                    album: opt_string_view(album),
                    duration,
                },
            ),
        decreases n - i,
    {
        let f = &fields[i];
        let reading = readings[i];
        proof {
            assert(fv.take(i + 1).drop_last() =~= fv.take(i as int));
            assert(readings@.take(i + 1).drop_last() =~= readings@.take(i as int));
            assert(fv.take(i + 1).last() == f@);
            assert(readings@.take(i + 1).last() == reading);
        }
        let key = f.key.as_str();
        let value = f.value.as_str();
        if str_eq(key, "file") {
            file_path = Some(f.value.clone());
        } else if str_eq(key, "Title") {
            title = Some(f.value.clone());
        } else if str_eq(key, "Artist") {
            artist = Some(f.value.clone());
        } else if str_eq(key, "Album") {
            album = Some(f.value.clone());
        } else if str_eq(key, "duration") {
            match parse_duration_secs_field("duration", value, reading) {
                Ok(x) => {
                    duration = x;
                },
                Err(e) => {
                    proof {
                        lemma_song_fold_stops(fv, readings@, i + 1);
                    }
                    return Err(e);
                },
            }
        } else if str_eq(key, "Time") {
            if duration.is_none() {
                match parse_u64(value) {
                    Some(secs) => {
                        duration = Some(Span::from_secs(secs));
                    },
                    None => {},
                }
            }
        }
        i += 1;
    }
    assert(fv.take(n as int) =~= fv);
    assert(readings@.take(n as int) =~= readings@);
    match file_path {
        None => Ok(None),
        Some(fp) => Ok(Some(MpdSong { file_path: fp, title, artist, album, duration })),
    }
}


/// Keys the `status` view reads.
pub open spec fn status_key(k: Seq<char>) -> bool {
    k == "state"@ || k == "song"@ || k == "elapsed"@ || k == "duration"@ || k == "volume"@
}

/// Keys the `currentsong` view reads.
pub open spec fn song_key(k: Seq<char>) -> bool {
    k == "file"@ || k == "Title"@ || k == "Artist"@ || k == "Album"@ || k == "duration"@ || k
        == "Time"@
}

proof fn lemma_status_fold_insert(
    fields: Seq<(Seq<char>, Seq<char>)>,
    readings: Seq<SecondsReading>,
    i: int,
    f: (Seq<char>, Seq<char>),
    r: SecondsReading,
)
    requires
        readings.len() == fields.len(),
        0 <= i <= fields.len(),
        !status_key(f.0),
    ensures
        status_fold(fields.insert(i, f), readings.insert(i, r)) == status_fold(fields, readings),
    decreases fields.len() - i,
{
    let fi = fields.insert(i, f);
    let ri = readings.insert(i, r);
    if i == fields.len() {
        assert(fi.drop_last() =~= fields);
        assert(ri.drop_last() =~= readings);
    } else {
        assert(fi.drop_last() =~= fields.drop_last().insert(i, f));
        assert(ri.drop_last() =~= readings.drop_last().insert(i, r));
        assert(fi.last() == fields.last());
        assert(ri.last() == readings.last());
        lemma_status_fold_insert(fields.drop_last(), readings.drop_last(), i, f, r);
    }
}

/// A field whose key `status` does not read changes nothing, wherever it
/// stands in the response.
pub proof fn status_ignores_unknown_fields(
    fields: Seq<(Seq<char>, Seq<char>)>,
    readings: Seq<SecondsReading>,
    i: int,
    f: (Seq<char>, Seq<char>),
    r: SecondsReading,
)
    requires
        readings.len() == fields.len(),
        0 <= i <= fields.len(),
        !status_key(f.0),
    ensures
        status_spec(fields.insert(i, f), readings.insert(i, r)) == status_spec(fields, readings),
{
    lemma_status_fold_insert(fields, readings, i, f, r);
}

proof fn lemma_song_fold_insert(
    fields: Seq<(Seq<char>, Seq<char>)>,
    readings: Seq<SecondsReading>,
    i: int,
    f: (Seq<char>, Seq<char>),
    r: SecondsReading,
)
    requires
        readings.len() == fields.len(),
        0 <= i <= fields.len(),
        !song_key(f.0),
    ensures
        song_fold(fields.insert(i, f), readings.insert(i, r)) == song_fold(fields, readings),
    decreases fields.len() - i,
{
    let fi = fields.insert(i, f);
    let ri = readings.insert(i, r);
    if i == fields.len() {
        assert(fi.drop_last() =~= fields);
        assert(ri.drop_last() =~= readings);
    } else {
        assert(fi.drop_last() =~= fields.drop_last().insert(i, f));
        assert(ri.drop_last() =~= readings.drop_last().insert(i, r));
        assert(fi.last() == fields.last());
        assert(ri.last() == readings.last());
        lemma_song_fold_insert(fields.drop_last(), readings.drop_last(), i, f, r);
    }
}

/// A field whose key `currentsong` does not read changes nothing, wherever
/// it stands in the response.
pub proof fn current_song_ignores_unknown_fields(
    fields: Seq<(Seq<char>, Seq<char>)>,
    readings: Seq<SecondsReading>,
    i: int,
    f: (Seq<char>, Seq<char>),
    r: SecondsReading,
)
    requires
        readings.len() == fields.len(),
        0 <= i <= fields.len(),
        !song_key(f.0),
    ensures
        current_song_spec(fields.insert(i, f), readings.insert(i, r)) == current_song_spec(
            fields,
            readings,
        ),
{
    lemma_song_fold_insert(fields, readings, i, f, r);
    if fields.len() == 0 {
        assert(fields.insert(i, f).drop_last() =~= fields);
        assert(readings.insert(i, r).drop_last() =~= readings);
    }
}

}
