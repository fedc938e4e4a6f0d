use volumio_plugins::backoff::{reconnect_max, BackoffState, RECONNECT_MAX_ATTEMPTS};
use volumio_plugins::mpd_error::{MpdError, ProtocolError, TransportError};
use volumio_plugins::mpd_types::{IdleSubsystem, MpdStatus, PlayState};
use volumio_plugins::playback_error::{
    classify_command_error, classify_connect_error, describe_mpd_error, error_calls_for_reconnect,
    PlaybackError,
};
use volumio_plugins::report::PlaybackStateReport;
use volumio_plugins::span::Span;
use volumio_plugins::supervisor::{
    decide, report_after_command, CommandRetry, IdleSignal, IdleStep, IdleWatch, RetryStep,
    SupervisorAction, SupervisorEvent, SupervisorLoop,
};

#[test]
fn backoff_delays_double_up_to_cap() {
    let mut b = BackoffState::new();
    assert_eq!(b.next_delay(), Some(Span::from_millis(100)));
    assert_eq!(b.next_delay(), Some(Span::from_millis(200)));
    assert_eq!(b.next_delay(), Some(Span::from_millis(400)));
    assert_eq!(b.next_delay(), Some(Span::from_millis(800)));
    assert_eq!(b.next_delay(), Some(Span::from_millis(1600)));
    assert_eq!(b.next_delay(), Some(Span::from_millis(3200)));
    assert_eq!(b.next_delay(), Some(Span::from_millis(6400)));
    // Next raw would be 12800ms; capped to 10000ms.
    assert_eq!(b.next_delay(), Some(reconnect_max()));
    assert_eq!(b.next_delay(), Some(reconnect_max()));
    assert_eq!(b.next_delay(), Some(reconnect_max()));
}

#[test]
fn backoff_returns_none_after_max_attempts() {
    let mut b = BackoffState::new();
    for _ in 0..RECONNECT_MAX_ATTEMPTS {
        assert!(b.next_delay().is_some());
    }
    assert_eq!(b.next_delay(), None);
    assert_eq!(b.attempts_used(), RECONNECT_MAX_ATTEMPTS);
}

fn transient() -> MpdError {
    MpdError::Transport(TransportError::Closed)
}

#[test]
fn command_reconnects_after_transient_drop() {
    let mut m = CommandRetry::new();
    match m.after_dispatch(Err(transient())) {
        RetryStep::Reconnect(d) => assert_eq!(d, Span::from_millis(100)),
        other => panic!("unexpected {other:?}"),
    }
    assert!(matches!(m.after_reconnect(Ok(())), RetryStep::Dispatch));
    assert!(matches!(m.after_dispatch(Ok(())), RetryStep::Finish(Ok(()))));
}

#[test]
fn command_dispatch_returns_ok_and_emits_followup_report() {
    assert_eq!(decide(SupervisorEvent::Command), SupervisorAction::RunCommand);
    let mut m = CommandRetry::new();
    let outcome = match m.after_dispatch(Ok(())) {
        RetryStep::Finish(outcome) => outcome,
        other => panic!("unexpected {other:?}"),
    };
    assert!(outcome.is_ok());
    assert!(report_after_command(&outcome));
    assert_eq!(m.attempts_used(), 0);
}

#[test]
fn command_ack_returns_playback_error_ack() {
    let mut m = CommandRetry::new();
    let ack = MpdError::Ack {
        code: 2,
        list_position: 0,
        command: "play".into(),
        message: "Bad song index".into(),
    };
    match m.after_dispatch(Err(ack)) {
        RetryStep::Finish(Err(PlaybackError::Ack { code, message })) => {
            assert_eq!(code, 2);
            assert_eq!(message, "Bad song index");
        }
        other => panic!("expected Ack, got {other:?}"),
    }
    assert_eq!(m.attempts_used(), 0);
}

#[test]
fn command_exhausts_after_ten_failed_reconnects() {
    let mut m = CommandRetry::new();
    let mut waits = Vec::new();
    let mut step = m.after_dispatch(Err(transient()));
    loop {
        match step {
            RetryStep::Reconnect(d) => {
                waits.push(d.as_millis());
                step = m.after_reconnect(Err(transient()));
            }
            RetryStep::Finish(r) => {
                match r {
                    Err(PlaybackError::ConnectionExhausted { attempts }) => assert_eq!(attempts, 10),
                    other => panic!("unexpected {other:?}"),
                }
                break;
            }
            RetryStep::Dispatch => panic!("no connection came back"),
        }
    }
    assert_eq!(waits, vec![100, 200, 400, 800, 1600, 3200, 6400, 10000, 10000, 10000]);
}

#[test]
fn retry_failure_is_final() {
    let mut m = CommandRetry::new();
    let _ = m.after_dispatch(Err(transient()));
    let _ = m.after_reconnect(Ok(()));
    match m.after_dispatch(Err(transient())) {
        RetryStep::Finish(Err(PlaybackError::ConnectionExhausted { attempts })) => {
            assert_eq!(attempts, RECONNECT_MAX_ATTEMPTS)
        }
        other => panic!("unexpected {other:?}"),
    }
}

#[test]
fn protocol_failure_is_not_retried() {
    let mut m = CommandRetry::new();
    let e = MpdError::Protocol(ProtocolError::MalformedLine("x".into()));
    match m.after_dispatch(Err(e)) {
        RetryStep::Finish(Err(PlaybackError::Protocol(text))) => {
            assert_eq!(text, "protocol error: malformed response line: x")
        }
        other => panic!("unexpected {other:?}"),
    }
}

#[test]
fn idle_event_triggers_extra_state_report() {
    let mut w = IdleWatch::new();
    match w.after_idle(Ok(vec![IdleSubsystem::Player])) {
        IdleStep::Notify(v) => assert_eq!(v, vec![IdleSubsystem::Player]),
        other => panic!("unexpected {other:?}"),
    }
    assert!(matches!(w.after_idle(Ok(vec![])), IdleStep::Idle));
    assert_eq!(decide(SupervisorEvent::IdleChanged), SupervisorAction::EmitReport);
}

#[test]
fn idle_reconnects_then_gives_up() {
    let mut w = IdleWatch::new();
    assert!(matches!(w.after_idle(Err(transient())), IdleStep::Reconnect(_)));
    for _ in 1..RECONNECT_MAX_ATTEMPTS {
        assert!(matches!(w.after_reconnect(false), IdleStep::Reconnect(_)));
    }
    assert!(matches!(w.after_reconnect(false), IdleStep::GiveUp));
    let mut w = IdleWatch::new();
    let _ = w.after_idle(Err(transient()));
    assert!(matches!(w.after_reconnect(true), IdleStep::Idle));
    assert!(matches!(w.after_notify(false), IdleStep::Stop));
}

#[test]
fn shutdown_completes_promptly() {
    assert_eq!(decide(SupervisorEvent::Shutdown), SupervisorAction::Exit);
    assert_eq!(decide(SupervisorEvent::CommandChannelClosed), SupervisorAction::Exit);
    assert_eq!(decide(SupervisorEvent::Command), SupervisorAction::RunCommand);
    assert_eq!(decide(SupervisorEvent::IdleExhausted), SupervisorAction::Continue);
    assert!(report_after_command(&Ok(())));
    assert!(!report_after_command(&Err(PlaybackError::Shutdown)));
}

#[test]
fn spawn_succeeds_and_emits_initial_report() {
    let status = MpdStatus {
        state: PlayState::Stopped,
        song_position: None,
        elapsed: None,
        duration: None,
        volume: None,
    };
    let text = PlaybackStateReport::from_mpd(status, None).serialise();
    assert!(text.contains("state = \"stopped\""), "{text:?}");
    assert_eq!(text, "state = \"stopped\"\n");
}

#[test]
fn error_classification() {
    assert!(error_calls_for_reconnect(&transient()));
    assert!(!error_calls_for_reconnect(&MpdError::Protocol(ProtocolError::NotUtf8Line)));
    assert!(matches!(
        classify_connect_error(transient()),
        PlaybackError::ConnectionExhausted { attempts: 1 }
    ));
    assert!(matches!(
        classify_command_error(transient()),
        PlaybackError::ConnectionExhausted { attempts: 10 }
    ));
    let t = MpdError::Timeout { operation: "welcome", elapsed: Span::from_millis(50) };
    assert_eq!(describe_mpd_error(&t), "timeout: welcome after 50 ms");
}

#[test]
fn shutdown_wins_over_ready_command_and_idle() {
    let lp = SupervisorLoop::new();
    assert!(lp.polls_idle());
    assert_eq!(
        lp.pick(true, Some(true), Some(IdleSignal::Changed)),
        Some(SupervisorEvent::Shutdown)
    );
    assert_eq!(lp.pick(false, Some(true), Some(IdleSignal::Changed)), Some(SupervisorEvent::Command));
    assert_eq!(lp.pick(false, Some(false), None), Some(SupervisorEvent::CommandChannelClosed));
    assert_eq!(lp.pick(false, None, Some(IdleSignal::Changed)), Some(SupervisorEvent::IdleChanged));
    assert_eq!(lp.pick(false, None, None), None);
}

#[test]
fn exhausted_idle_channel_is_not_polled_again() {
    let mut lp = SupervisorLoop::new();
    assert_eq!(lp.step(SupervisorEvent::IdleChanged), SupervisorAction::EmitReport);
    assert!(lp.polls_idle());
    assert_eq!(lp.step(SupervisorEvent::IdleExhausted), SupervisorAction::Continue);
    assert!(!lp.polls_idle());
    assert_eq!(lp.pick(false, None, Some(IdleSignal::Changed)), None);
    assert_eq!(lp.pick(false, Some(true), Some(IdleSignal::Closed)), Some(SupervisorEvent::Command));
    assert_eq!(lp.step(SupervisorEvent::Command), SupervisorAction::RunCommand);
    assert!(!lp.polls_idle());
    assert_eq!(lp.step(SupervisorEvent::Shutdown), SupervisorAction::Exit);
}
