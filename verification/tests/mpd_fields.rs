use std::time::Duration;

use volumio_plugins::mpd_error::{MpdError, ProtocolError};
use volumio_plugins::mpd_fields::{
    parse_current_song, parse_duration_secs_field, parse_status, parse_u32_field, parse_volume_field,
};
use volumio_plugins::mpd_types::{Field, MpdSong, PlayState, SecondsReading};
use volumio_plugins::span::Span;

/// Reads a value as seconds the way the connection layer does.
fn reading(value: &str) -> SecondsReading {
    match value.parse::<f64>() {
        Err(_) => SecondsReading::Unparseable,
        Ok(secs) if !secs.is_finite() || secs < 0.0 => SecondsReading::OutOfRange,
        Ok(secs) => {
            let d = Duration::from_secs_f64(secs);
            SecondsReading::Value(Span::from_parts(d.as_secs(), d.subsec_nanos()))
        }
    }
}

fn field(key: &str, value: &str) -> Field {
    Field { key: key.into(), value: value.into() }
}

fn readings(fields: &[Field]) -> Vec<SecondsReading> {
    fields.iter().map(|f| reading(&f.value)).collect()
}

fn status_of(fields: &[Field]) -> Result<volumio_plugins::mpd_types::MpdStatus, MpdError> {
    parse_status(fields, &readings(fields))
}

fn song_of(fields: &[Field]) -> Result<Option<MpdSong>, MpdError> {
    parse_current_song(fields, &readings(fields))
}

#[test]
fn parse_status_requires_state() {
    let fields = vec![Field { key: "volume".into(), value: "50".into() }];
    let err = status_of(&fields).unwrap_err();
    assert!(matches!(
        err,
        MpdError::Protocol(ProtocolError::MissingField { field: "state" })
    ));
}

#[test]
fn parse_status_ignores_unknown_fields() {
    let fields = vec![
        Field { key: "state".into(), value: "play".into() },
        Field { key: "unknown_field".into(), value: "value".into() },
        Field { key: "xfade".into(), value: "2".into() },
    ];
    let s = status_of(&fields).unwrap();
    assert_eq!(s.state, PlayState::Playing);
}

#[test]
fn parse_current_song_missing_file_returns_none() {
    let fields = vec![Field { key: "Title".into(), value: "Something".into() }];
    let s = song_of(&fields).unwrap();
    assert!(s.is_none());
}

#[test]
fn status_parses_play_state_and_fields() {
    let fields = vec![
        field("volume", "50"),
        field("state", "play"),
        field("song", "3"),
        field("elapsed", "12.345"),
        field("duration", "180.0"),
    ];
    let s = status_of(&fields).unwrap();
    assert_eq!(s.state, PlayState::Playing);
    assert_eq!(s.song_position, Some(3));
    assert_eq!(s.volume, Some(50));
    assert_eq!(s.elapsed, Some(Span::from_millis(12_345)));
    assert_eq!(s.duration, Some(Span::from_millis(180_000)));
}

#[test]
fn status_handles_volume_minus_one_as_unknown() {
    let fields = vec![field("volume", "-1"), field("state", "stop")];
    let s = status_of(&fields).unwrap();
    assert_eq!(s.state, PlayState::Stopped);
    assert_eq!(s.volume, None);
    assert_eq!(s.song_position, None);
}

#[test]
fn status_reports_pause_state() {
    let s = status_of(&[field("state", "pause"), field("song", "0")]).unwrap();
    assert_eq!(s.state, PlayState::Paused);
    assert_eq!(s.song_position, Some(0));
}

#[test]
fn status_errors_on_unknown_play_state() {
    let err = status_of(&[field("state", "wibbling")]).unwrap_err();
    match err {
        MpdError::Protocol(ProtocolError::UnknownPlayState(v)) => assert_eq!(v, "wibbling"),
        other => panic!("unexpected {other:?}"),
    }
}

#[test]
fn status_errors_when_state_field_missing() {
    let err = status_of(&[field("volume", "50"), field("song", "3")]).unwrap_err();
    assert!(matches!(
        err,
        MpdError::Protocol(ProtocolError::MissingField { field: "state" })
    ));
}

#[test]
fn status_first_bad_field_wins() {
    let err = status_of(&[field("song", "x"), field("state", "nope")]).unwrap_err();
    match err {
        MpdError::Protocol(ProtocolError::UnparseableField { field, value }) => {
            assert_eq!(field, "song");
            assert_eq!(value, "x");
        }
        other => panic!("unexpected {other:?}"),
    }
}

#[test]
fn status_negative_elapsed_reads_unknown() {
    let s = status_of(&[field("state", "play"), field("elapsed", "-3")]).unwrap();
    assert_eq!(s.elapsed, None);
}

#[test]
fn current_song_populated_returns_some() {
    let fields = vec![
        field("file", "INTERNAL/Artist/Album/track.flac"),
        field("Title", "Track One"),
        field("Artist", "An Artist"),
        field("Album", "An Album"),
        field("duration", "242.5"),
    ];
    let s = song_of(&fields).unwrap().unwrap();
    assert_eq!(s.file_path, "INTERNAL/Artist/Album/track.flac");
    assert_eq!(s.title.as_deref(), Some("Track One"));
    assert_eq!(s.artist.as_deref(), Some("An Artist"));
    assert_eq!(s.album.as_deref(), Some("An Album"));
    assert_eq!(s.duration, Some(Span::from_millis(242_500)));
}

#[test]
fn current_song_empty_response_returns_none() {
    assert!(song_of(&[]).unwrap().is_none());
}

#[test]
fn current_song_uses_time_as_duration_fallback_on_old_mpd() {
    let s = song_of(&[field("file", "x.flac"), field("Title", "t"), field("Time", "300")])
        .unwrap()
        .unwrap();
    assert_eq!(s.duration, Some(Span::from_secs(300)));
}

#[test]
fn current_song_duration_beats_later_time() {
    let s = song_of(&[field("file", "x.flac"), field("duration", "1.5"), field("Time", "300")])
        .unwrap()
        .unwrap();
    assert_eq!(s.duration, Some(Span::from_millis(1_500)));
}

#[test]
fn field_parsers() {
    assert_eq!(parse_u32_field("song", "+7").unwrap(), 7);
    assert!(parse_u32_field("song", "4294967296").is_err());
    assert!(parse_u32_field("song", "-1").is_err());
    assert_eq!(parse_volume_field("100").unwrap(), Some(100));
    assert_eq!(parse_volume_field("101").unwrap(), None);
    assert!(parse_volume_field("loud").is_err());
    assert!(parse_duration_secs_field("elapsed", "x", SecondsReading::Unparseable).is_err());
    assert_eq!(
        parse_duration_secs_field("elapsed", "inf", SecondsReading::OutOfRange).unwrap(),
        None
    );
}
