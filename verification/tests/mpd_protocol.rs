use volumio_plugins::mpd_commands::{
    changed_subsystems, command_request, idle_arguments, seek_position_text, PlaybackCommand,
};
use volumio_plugins::mpd_error::{MpdError, ProtocolError, TransportError};
use volumio_plugins::mpd_framing::{scan_line, FrameScan};
use volumio_plugins::mpd_protocol::{absorb_line, classify_line, parse_welcome, serialise_command, ClassifiedLine, LineOutcome};
use volumio_plugins::mpd_types::{Field, IdleSubsystem};
use volumio_plugins::mpd_version::MpdVersion;
use volumio_plugins::span::Span;

#[test]
fn version_displays_dotted_triple() {
    let v = MpdVersion::new(0, 23, 5);
    assert_eq!(v.to_string(), "0.23.5");
}

#[test]
fn versions_order_by_component() {
    let a = MpdVersion::new(0, 22, 0);
    let b = MpdVersion::new(0, 23, 0);
    let c = MpdVersion::new(0, 23, 1);
    assert!(a < b);
    assert!(b < c);
    assert_eq!(b, MpdVersion::new(0, 23, 0));
}

#[test]
fn version_order_agrees_with_is_before() {
    let a = MpdVersion::new(1, 0, 0);
    let b = MpdVersion::new(0, 99, 99);
    assert!(b.is_before(&a));
    assert!(!a.is_before(&b));
    assert!(b < a);
    assert_eq!(a.cmp(&b), std::cmp::Ordering::Greater);
}

#[test]
fn connect_parses_welcome_banner() {
    assert_eq!(parse_welcome("OK MPD 0.23.5").unwrap(), MpdVersion::new(0, 23, 5));
}

#[test]
fn connect_rejects_bad_welcome() {
    let err = parse_welcome("NOT A WELCOME").unwrap_err();
    assert!(matches!(err, MpdError::Protocol(ProtocolError::BadWelcome(_))));
}

#[test]
fn connect_rejects_bad_version() {
    let err = parse_welcome("OK MPD something").unwrap_err();
    match err {
        MpdError::Protocol(ProtocolError::BadVersion(v)) => assert_eq!(v, "something"),
        other => panic!("unexpected {other:?}"),
    }
}

#[test]
fn welcome_needs_three_components() {
    assert!(parse_welcome("OK MPD 0.23").is_err());
    assert!(parse_welcome("OK MPD 0.23.5.1").is_err());
}

#[test]
fn classify_ok_field_and_ack() {
    assert!(matches!(classify_line("OK").unwrap(), ClassifiedLine::Complete));
    match classify_line("volume: 50").unwrap() {
        ClassifiedLine::Field(f) => {
            assert_eq!(f.key, "volume");
            assert_eq!(f.value, "50");
        }
        other => panic!("unexpected {other:?}"),
    }
    match classify_line("file: a: b.flac").unwrap() {
        ClassifiedLine::Field(f) => {
            assert_eq!(f.key, "file");
            assert_eq!(f.value, "a: b.flac");
        }
        other => panic!("unexpected {other:?}"),
    }
    assert!(matches!(
        classify_line("garbage").unwrap_err(),
        MpdError::Protocol(ProtocolError::MalformedLine(_))
    ));
    assert!(matches!(
        classify_line("ACK nonsense").unwrap_err(),
        MpdError::Protocol(ProtocolError::MalformedAck(_))
    ));
}

#[test]
fn status_surfaces_ack_as_mpderror_ack() {
    let mut body: Vec<Field> = Vec::new();
    match absorb_line(&mut body, "ACK [2@0] {status} Bad argument") {
        LineOutcome::Failed(MpdError::Ack { code, list_position, command, message }) => {
            assert_eq!(code, 2);
            assert_eq!(list_position, 0);
            assert_eq!(command, "status");
            assert_eq!(message, "Bad argument");
        }
        other => panic!("unexpected {other:?}"),
    }
    assert!(body.is_empty());
}

#[test]
fn absorb_collects_fields_until_ok() {
    let mut body: Vec<Field> = Vec::new();
    assert!(matches!(absorb_line(&mut body, "state: stop"), LineOutcome::More));
    assert!(matches!(absorb_line(&mut body, "volume: 20"), LineOutcome::More));
    assert!(matches!(absorb_line(&mut body, "OK"), LineOutcome::Complete));
    assert_eq!(body.len(), 2);
    assert_eq!(body[1].key, "volume");
}

#[test]
fn serialise_quotes_arguments() {
    let bytes = serialise_command("status", &[]).unwrap();
    assert_eq!(bytes, b"status\n");
    let bytes = serialise_command("find", &["say \"hi\"".to_string(), "a\\b".to_string()]).unwrap();
    assert_eq!(bytes, b"find \"say \\\"hi\\\"\" \"a\\\\b\"\n");
    assert!(matches!(
        serialise_command("bad cmd", &[]).unwrap_err(),
        MpdError::Protocol(ProtocolError::InvalidCommand(_))
    ));
    match serialise_command("play", &["1\n2".to_string()]).unwrap_err() {
        MpdError::Protocol(ProtocolError::InvalidCommand(a)) => assert_eq!(a, "1\n2"),
        other => panic!("unexpected {other:?}"),
    }
}

#[test]
fn playback_commands_map_to_mpd_words() {
    let (c, a) = command_request(&PlaybackCommand::Play);
    assert_eq!((c, a.len()), ("play", 0));
    let (c, a) = command_request(&PlaybackCommand::PlayPosition(4));
    assert_eq!((c, a), ("play", vec!["4".to_string()]));
    let (c, a) = command_request(&PlaybackCommand::Pause(true));
    assert_eq!((c, a), ("pause", vec!["1".to_string()]));
    let (c, a) = command_request(&PlaybackCommand::Seek(Span::from_millis(61_005)));
    assert_eq!((c, a), ("seekcur", vec!["61.005".to_string()]));
    let (c, a) = command_request(&PlaybackCommand::SetVolume(70));
    assert_eq!((c, a), ("setvol", vec!["70".to_string()]));
    assert_eq!(seek_position_text(&Span::from_secs(2)), "2.000");
}

#[test]
fn idle_arguments_and_changes() {
    let args = idle_arguments(&[IdleSubsystem::Player, IdleSubsystem::Mixer, IdleSubsystem::Options, IdleSubsystem::Playlist]);
    assert_eq!(args, vec!["player", "mixer", "options", "playlist"]);
    let body = vec![
        Field { key: "changed".into(), value: "player".into() },
        Field { key: "changed".into(), value: "martian".into() },
        Field { key: "other".into(), value: "mixer".into() },
        Field { key: "changed".into(), value: "mixer".into() },
    ];
    assert_eq!(changed_subsystems(&body), vec![IdleSubsystem::Player, IdleSubsystem::Mixer]);
}

#[test]
fn framing_splits_lines() {
    match scan_line(b"OK MPD 0.23.5\nrest", 100) {
        FrameScan::Line { text, consumed } => {
            assert_eq!(text, "OK MPD 0.23.5");
            assert_eq!(consumed, 14);
        }
        other => panic!("unexpected {other:?}"),
    }
    assert!(matches!(scan_line(b"partial", 100), FrameScan::Incomplete));
    assert!(matches!(scan_line(b"toolong", 3), FrameScan::TooLong));
    assert!(matches!(scan_line(b"\xff\n", 100), FrameScan::NotUtf8));
    let _ = TransportError::Closed;
}
