//! Decisions of the playback supervisor: retrying a command across a
//! reconnect, keeping the idle watcher alive, and reacting to the events the
//! supervisor's loop receives. The loops themselves, which sleep, connect and
//! talk to MPD, run outside the library and feed these machines.
use vstd::prelude::*;

use crate::backoff::{
    backoff_default_schedule, delay_for, reconnect_initial_nanos, reconnect_max_nanos, BackoffState, BackoffV,
    RECONNECT_MAX_ATTEMPTS,
};
use crate::mpd_error::{ConfigError, MpdError, MpdErrorV, ProtocolErrorV, TransportErrorV};
use crate::mpd_types::IdleSubsystem;
use crate::playback_error::{
    calls_for_reconnect, classify_command_error, command_failure, error_calls_for_reconnect,
    PlaybackError, PlaybackErrorV,
};
use crate::span::Span;

verus! {

/// Where a command stands in its dispatch / reconnect / retry cycle.
#[derive(Debug, Clone, Copy, PartialEq, Eq, Structural)]
pub enum RetryPhase {
    /// The first dispatch on the current connection is under way.
    FirstAttempt,
    /// The connection failed; reconnect attempts are under way.
    Reconnecting,
    /// Reconnected; the single retry is under way.
    Retrying,
    /// An outcome has been given.
    Finished,
}

/// What the loop running a command does next.
#[derive(Debug)]
pub enum RetryStep {
    /// Dispatch the command on the current connection.
    Dispatch,
    /// Sleep this long, then try to open a fresh connection.
    Reconnect(Span),
    /// The command is over, with this outcome.
    Finish(Result<(), PlaybackError>),
}

pub enum StepV {
    Dispatch,
    /// Sleep this many nanoseconds, then reconnect.
    Reconnect(nat),
    Finish(Result<(), PlaybackErrorV>),
}

pub open spec fn step_view(r: RetryStep) -> StepV {
    match r {
        RetryStep::Dispatch => StepV::Dispatch,
        RetryStep::Reconnect(d) => StepV::Reconnect(d@),
        RetryStep::Finish(Ok(())) => StepV::Finish(Ok(())),
        RetryStep::Finish(Err(e)) => StepV::Finish(Err(e@)),
    }
}

pub struct CommandRetryV {
    pub phase: RetryPhase,
    pub backoff: BackoffV,
}

/// One command's way through transient connection failures: dispatch, on a
/// transient failure reconnect with backoff, then retry exactly once.
#[derive(Debug)]
pub struct CommandRetry {
    phase: RetryPhase,
    backoff: BackoffState,
}

impl View for CommandRetry {
    type V = CommandRetryV;

    closed spec fn view(&self) -> CommandRetryV {
        CommandRetryV { phase: self.phase, backoff: self.backoff@ }
    }
}

/// A fresh command under the default backoff schedule.
pub open spec fn fresh_retry() -> CommandRetryV {
    CommandRetryV {
        phase: RetryPhase::FirstAttempt,
        backoff: BackoffV {
            attempt: 0,
            max_attempts: RECONNECT_MAX_ATTEMPTS as nat,
            initial: reconnect_initial_nanos(),
            max: reconnect_max_nanos(),
        },
    }
}

/// Draw the next reconnect delay, or give up once the attempts are used.
pub open spec fn draw_spec(s: CommandRetryV) -> (CommandRetryV, StepV) {
    let b = s.backoff;
    if b.attempt < b.max_attempts {
        (
            CommandRetryV { phase: s.phase, backoff: BackoffV { attempt: b.attempt + 1, ..b } },
            StepV::Reconnect(delay_for(b.attempt, b.initial, b.max)),
        )
    } else {
        (
            CommandRetryV { phase: RetryPhase::Finished, backoff: b },
            StepV::Finish(Err(PlaybackErrorV::ConnectionExhausted { attempts: b.attempt as u32 })),
        )
    }
}

/// The machine after a dispatch ended with `outcome`.
pub open spec fn dispatch_spec(s: CommandRetryV, outcome: Result<(), MpdErrorV>) -> (
    CommandRetryV,
    StepV,
) {
    match outcome {
        Ok(()) => (CommandRetryV { phase: RetryPhase::Finished, ..s }, StepV::Finish(Ok(()))),
        Err(e) => if s.phase == RetryPhase::FirstAttempt && calls_for_reconnect(e) {
            draw_spec(CommandRetryV { phase: RetryPhase::Reconnecting, ..s })
        } else {
            (
                CommandRetryV { phase: RetryPhase::Finished, ..s },
                StepV::Finish(Err(command_failure(e))),
            )
        },
    }
}

/// The machine after a reconnect attempt ended with `outcome`.
pub open spec fn reconnect_spec(s: CommandRetryV, outcome: Result<(), MpdErrorV>) -> (
    CommandRetryV,
    StepV,
) {
    match outcome {
        Ok(()) => (CommandRetryV { phase: RetryPhase::Retrying, ..s }, StepV::Dispatch),
        Err(e) => if calls_for_reconnect(e) {
            draw_spec(s)
        } else {
            (
                CommandRetryV { phase: RetryPhase::Finished, ..s },
                StepV::Finish(Err(command_failure(e))),
            )
        },
    }
}

pub open spec fn unit_result(r: Result<(), MpdError>) -> Result<(), MpdErrorV> {
    match r {
        Ok(()) => Ok(()),
        Err(e) => Err(e@),
    }
}

impl CommandRetry {
    /// A command about to be dispatched for the first time.
    pub fn new() -> (c: CommandRetry)
        ensures
            c@ == fresh_retry(),
    {
        CommandRetry { phase: RetryPhase::FirstAttempt, backoff: BackoffState::new() }
    }

    fn draw(&mut self) -> (r: RetryStep)
        ensures
            (final(self)@, step_view(r)) == draw_spec(old(self)@),
    {
        match self.backoff.next_delay() {
            Some(d) => RetryStep::Reconnect(d),
            None => {
                self.phase = RetryPhase::Finished;
                RetryStep::Finish(
                    Err(PlaybackError::ConnectionExhausted { attempts: self.backoff.attempts_used() }),
                )
            },
        }
    }

    /// The outcome of a dispatch (first attempt or retry).
    pub fn after_dispatch(&mut self, outcome: Result<(), MpdError>) -> (r: RetryStep)
        requires
            old(self)@.phase == RetryPhase::FirstAttempt || old(self)@.phase == RetryPhase::Retrying,
        ensures
            (final(self)@, step_view(r)) == dispatch_spec(old(self)@, unit_result(outcome)),
    {
        match outcome {
            Ok(()) => {
                self.phase = RetryPhase::Finished;
                RetryStep::Finish(Ok(()))
            },
            Err(e) => {
                if matches!(self.phase, RetryPhase::FirstAttempt) && error_calls_for_reconnect(&e) {
                    self.phase = RetryPhase::Reconnecting;
                    self.draw()
                } else {
                    self.phase = RetryPhase::Finished;
                    RetryStep::Finish(Err(classify_command_error(e)))
                }
            },
        }
    }

    /// The outcome of an attempt to open a fresh connection.
    pub fn after_reconnect(&mut self, outcome: Result<(), MpdError>) -> (r: RetryStep)
        requires
            old(self)@.phase == RetryPhase::Reconnecting,
        ensures
            (final(self)@, step_view(r)) == reconnect_spec(old(self)@, unit_result(outcome)),
    {
        match outcome {
            Ok(()) => {
                self.phase = RetryPhase::Retrying;
                RetryStep::Dispatch
            },
            Err(e) => {
                if error_calls_for_reconnect(&e) {
                    self.draw()
                } else {
                    self.phase = RetryPhase::Finished;
                    RetryStep::Finish(Err(classify_command_error(e)))
                }
            },
        }
    }

    /// Reconnect attempts drawn so far.
    pub fn attempts_used(&self) -> (r: u32)
        ensures
            r == self@.backoff.attempt,
    {
        self.backoff.attempts_used()
    }
}

/// The machine after the first dispatch failed with `e` and then `j`
/// reconnect attempts failed with `e` too.
pub open spec fn after_failures(e: MpdErrorV, j: nat) -> (CommandRetryV, StepV)
    decreases j,
{
    if j == 0 {
        dispatch_spec(fresh_retry(), Err(e))
    } else {
        reconnect_spec(after_failures(e, (j - 1) as nat).0, Err(e))
    }
}

/// When the connection stays down, a command waits out the whole backoff
/// schedule, one reconnect attempt per delay, and then fails with
/// `ConnectionExhausted { attempts: 10 }`.
pub proof fn retry_exhausts_after_max_attempts(e: MpdErrorV, j: nat)
    requires
        calls_for_reconnect(e),
        j <= RECONNECT_MAX_ATTEMPTS,
    ensures
        j < RECONNECT_MAX_ATTEMPTS ==> after_failures(e, j).0.phase == RetryPhase::Reconnecting
            && after_failures(e, j).0.backoff.attempt == j + 1 && after_failures(e, j).1
            == StepV::Reconnect(
            delay_for(j, reconnect_initial_nanos(), reconnect_max_nanos()),
        ),
        j == RECONNECT_MAX_ATTEMPTS ==> after_failures(e, j).0.phase == RetryPhase::Finished
            && after_failures(e, j).1 == StepV::Finish(
            Err(PlaybackErrorV::ConnectionExhausted { attempts: RECONNECT_MAX_ATTEMPTS }),
        ),
        after_failures(e, j).0.backoff.max_attempts == RECONNECT_MAX_ATTEMPTS,
        after_failures(e, j).0.backoff.initial == reconnect_initial_nanos(),
        after_failures(e, j).0.backoff.max == reconnect_max_nanos(),
    decreases j,
{
    if j > 0 {
        retry_exhausts_after_max_attempts(e, (j - 1) as nat);
    }
}

/// A command reaches MPD at most twice: once on the first connection and
/// once after a successful reconnect; whatever the retry gives is final.
pub proof fn retry_dispatches_at_most_twice(s: CommandRetryV, outcome: Result<(), MpdErrorV>)
    requires
        s.phase == RetryPhase::Retrying,
    ensures
        dispatch_spec(s, outcome).0.phase == RetryPhase::Finished,
        dispatch_spec(s, outcome).1 is Finish,
{
}

/// An `ACK` ends a command at once, with the code and message MPD gave,
/// and no reconnect.
pub proof fn retry_ack_is_final(s: CommandRetryV, code: u32, pos: u32, cmd: Seq<char>, msg: Seq<char>)
    requires
        s.phase == RetryPhase::FirstAttempt || s.phase == RetryPhase::Retrying,
    ensures
        dispatch_spec(
            s,
            Err(MpdErrorV::Ack { code, list_position: pos, command: cmd, message: msg }),
        ).1 == StepV::Finish(Err(PlaybackErrorV::Ack { code, message: msg })),
        dispatch_spec(
            s,
            Err(MpdErrorV::Ack { code, list_position: pos, command: cmd, message: msg }),
        ).0.backoff == s.backoff,
{
}


/// What the idle watcher does next.
#[derive(Debug)]
pub enum IdleStep {
    /// Enter `idle` again on the current connection.
    Idle,
    /// Tell the supervisor these subsystems changed.
    Notify(Vec<IdleSubsystem>),
    /// Sleep this long, then try to open a fresh idle connection.
    Reconnect(Span),
    /// Every reconnect attempt failed: tell the supervisor and stop.
    GiveUp,
    /// The supervisor no longer listens: stop.
    Stop,
}

pub enum IdleStepV {
    Idle,
    Notify(Seq<IdleSubsystem>),
    Reconnect(nat),
    GiveUp,
    Stop,
}

pub open spec fn idle_step_view(r: IdleStep) -> IdleStepV {
    match r {
        IdleStep::Idle => IdleStepV::Idle,
        IdleStep::Notify(v) => IdleStepV::Notify(v@),
        IdleStep::Reconnect(d) => IdleStepV::Reconnect(d@),
        IdleStep::GiveUp => IdleStepV::GiveUp,
        IdleStep::Stop => IdleStepV::Stop,
    }
}

/// The idle watcher's state: the backoff of the reconnection under way, if
/// the idle connection has failed.
#[derive(Debug)]
pub struct IdleWatch {
    reconnecting: Option<BackoffState>,
}

impl View for IdleWatch {
    type V = Option<BackoffV>;

    closed spec fn view(&self) -> Option<BackoffV> {
        match self.reconnecting {
            Some(b) => Some(b@),
            None => None,
        }
    }
}

pub open spec fn fresh_backoff() -> BackoffV {
    BackoffV {
        attempt: 0,
        max_attempts: RECONNECT_MAX_ATTEMPTS as nat,
        initial: reconnect_initial_nanos(),
        max: reconnect_max_nanos(),
    }
}

/// Draw from a reconnection's backoff.
pub open spec fn idle_draw_spec(b: BackoffV) -> (Option<BackoffV>, IdleStepV) {
    if b.attempt < b.max_attempts {
        (
            Some(BackoffV { attempt: b.attempt + 1, ..b }),
            IdleStepV::Reconnect(delay_for(b.attempt, b.initial, b.max)),
        )
    } else {
        (Some(b), IdleStepV::GiveUp)
    }
}

/// After an `idle` call returned `outcome` on a healthy connection.
pub open spec fn idle_result_spec(outcome: Result<Seq<IdleSubsystem>, MpdErrorV>) -> (
    Option<BackoffV>,
    IdleStepV,
) {
    match outcome {
        Ok(changed) => if changed.len() == 0 {
            (None, IdleStepV::Idle)
        } else {
            (None, IdleStepV::Notify(changed))
        },
        Err(_) => idle_draw_spec(fresh_backoff()),
    }
}

/// After a reconnect attempt of the idle connection.
pub open spec fn idle_reconnect_spec(b: BackoffV, connected: bool) -> (
    Option<BackoffV>,
    IdleStepV,
) {
    if connected {
        (None, IdleStepV::Idle)
    } else {
        idle_draw_spec(b)
    }
}

pub open spec fn subsystems_result(r: Result<Vec<IdleSubsystem>, MpdError>) -> Result<
    Seq<IdleSubsystem>,
    MpdErrorV,
> {
    match r {
        Ok(v) => Ok(v@),
        Err(e) => Err(e@),
    }
}

impl IdleWatch {
    /// A watcher on a healthy idle connection.
    pub fn new() -> (w: IdleWatch)
        ensures
            w@ is None,
    {
        IdleWatch { reconnecting: None }
    }

    /// The outcome of an `idle` call.
    pub fn after_idle(&mut self, outcome: Result<Vec<IdleSubsystem>, MpdError>) -> (r: IdleStep)
        requires
            old(self)@ is None,
        ensures
            (final(self)@, idle_step_view(r)) == idle_result_spec(subsystems_result(outcome)),
    {
        match outcome {
            Ok(changed) => {
                if changed.len() == 0 {
                    IdleStep::Idle
                } else {
                    IdleStep::Notify(changed)
                }
            },
            Err(_) => {
                let mut b = BackoffState::new();
                let step = match b.next_delay() {
                    Some(d) => IdleStep::Reconnect(d),
                    None => IdleStep::GiveUp,
                };
                self.reconnecting = Some(b);
                step
            },
        }
    }

    /// Whether the supervisor took the change notice.
    pub fn after_notify(&mut self, delivered: bool) -> (r: IdleStep)
        ensures
            final(self)@ == old(self)@,
            idle_step_view(r) == (if delivered {
                IdleStepV::Idle
            } else {
                IdleStepV::Stop
            }),
    {
        if delivered {
            IdleStep::Idle
        } else {
            IdleStep::Stop
        }
    }

    /// The outcome of an attempt to reopen the idle connection; any failure
    /// counts as one used attempt.
    pub fn after_reconnect(&mut self, connected: bool) -> (r: IdleStep)
        requires
            old(self)@ is Some,
        ensures
            (final(self)@, idle_step_view(r)) == idle_reconnect_spec(old(self)@->0, connected),
    {
        if connected {
            self.reconnecting = None;
            return IdleStep::Idle;
        }
        let mut b = match self.reconnecting.take() {
            Some(b) => b,
            None => BackoffState::new(),
        };
        let step = match b.next_delay() {
            Some(d) => IdleStep::Reconnect(d),
            None => IdleStep::GiveUp,
        };
        self.reconnecting = Some(b);
        step
    }
}

/// The idle watcher after its connection failed and then `j` reconnect
/// attempts failed.
pub open spec fn idle_after_failures(j: nat) -> (Option<BackoffV>, IdleStepV)
    decreases j,
{
    if j == 0 {
        idle_draw_spec(fresh_backoff())
    } else {
        idle_reconnect_spec(idle_after_failures((j - 1) as nat).0->0, false)
    }
}

/// The idle watcher keeps trying through the whole backoff schedule and
/// gives up after the tenth failed reconnect attempt.
pub proof fn idle_gives_up_after_max_attempts(j: nat)
    requires
        j <= RECONNECT_MAX_ATTEMPTS,
    ensures
        idle_after_failures(j).0 is Some,
        idle_after_failures(j).0->0.max_attempts == RECONNECT_MAX_ATTEMPTS,
        idle_after_failures(j).0->0.initial == reconnect_initial_nanos(),
        idle_after_failures(j).0->0.max == reconnect_max_nanos(),
        j < RECONNECT_MAX_ATTEMPTS ==> idle_after_failures(j).0->0.attempt == j + 1
            && idle_after_failures(j).1 == IdleStepV::Reconnect(
            delay_for(j, reconnect_initial_nanos(), reconnect_max_nanos()),
        ),
        j == RECONNECT_MAX_ATTEMPTS ==> idle_after_failures(j).1 == IdleStepV::GiveUp,
    decreases j,
{
    if j > 0 {
        idle_gives_up_after_max_attempts((j - 1) as nat);
    }
}

/// What reached the supervisor's loop.
#[derive(Debug, Clone, Copy, PartialEq, Eq, Structural)]
pub enum SupervisorEvent {
    /// The warden asked for shutdown.
    Shutdown,
    /// Every command sender is gone.
    CommandChannelClosed,
    /// A command arrived.
    Command,
    /// The idle watcher's channel closed.
    IdleChannelClosed,
    /// The idle watcher gave up reconnecting.
    IdleExhausted,
    /// The idle watcher saw changes.
    IdleChanged,
}

/// What the supervisor's loop does about an event.
#[derive(Debug, Clone, Copy, PartialEq, Eq, Structural)]
pub enum SupervisorAction {
    /// Leave the loop.
    Exit,
    /// Run the command, reply, and report state if it succeeded.
    RunCommand,
    /// Carry on with commands only.
    Continue,
    /// Emit a fresh state report.
    EmitReport,
}

pub open spec fn decide_spec(ev: SupervisorEvent) -> SupervisorAction {
    match ev {
        SupervisorEvent::Shutdown | SupervisorEvent::CommandChannelClosed => SupervisorAction::Exit,
        SupervisorEvent::Command => SupervisorAction::RunCommand,
        SupervisorEvent::IdleChannelClosed | SupervisorEvent::IdleExhausted => SupervisorAction::Continue,
        SupervisorEvent::IdleChanged => SupervisorAction::EmitReport,
    }
}

pub fn decide(ev: SupervisorEvent) -> (a: SupervisorAction)
    ensures
        a == decide_spec(ev),
{
    match ev {
        SupervisorEvent::Shutdown | SupervisorEvent::CommandChannelClosed => SupervisorAction::Exit,
        SupervisorEvent::Command => SupervisorAction::RunCommand,
        SupervisorEvent::IdleChannelClosed | SupervisorEvent::IdleExhausted => SupervisorAction::Continue,
        SupervisorEvent::IdleChanged => SupervisorAction::EmitReport,
    }
}

/// A command that succeeded is followed by a state report; a failed one is not.
pub fn report_after_command(outcome: &Result<(), PlaybackError>) -> (r: bool)
    ensures
        r == outcome is Ok,
{
    outcome.is_ok()
}

/// What the idle channel gave the supervisor's loop.
#[derive(Debug, Clone, Copy, PartialEq, Eq, Structural)]
pub enum IdleSignal {
    /// Some subsystems changed.
    Changed,
    /// The idle watcher gave up reconnecting.
    Exhausted,
    /// The channel closed.
    Closed,
}

/// The supervisor loop's own state: whether the idle channel is still
/// polled.
#[derive(Debug)]
pub struct SupervisorLoop {
    idle_open: bool,
}

impl View for SupervisorLoop {
    type V = bool;

    closed spec fn view(&self) -> bool {
        self.idle_open
    }
}

/// Among the sources ready at once, the event acted on: a shutdown signal
/// first, then the command channel (a message, or its closing), then the
/// idle channel, and that only while it is still polled.
pub open spec fn pick_spec(
    idle_open: bool,
    shutdown: bool,
    command: Option<bool>,
    idle: Option<IdleSignal>,
) -> Option<SupervisorEvent> {
    if shutdown {
        Some(SupervisorEvent::Shutdown)
    } else if command is Some {
        if command->0 {
            Some(SupervisorEvent::Command)
        } else {
            Some(SupervisorEvent::CommandChannelClosed)
        }
    } else if idle_open && idle is Some {
        match idle->0 {
            IdleSignal::Changed => Some(SupervisorEvent::IdleChanged),
            IdleSignal::Exhausted => Some(SupervisorEvent::IdleExhausted),
            IdleSignal::Closed => Some(SupervisorEvent::IdleChannelClosed),
        }
    } else {
        None
    }
}

/// An event that ends the idle channel for the loop.
pub open spec fn ends_idle(ev: SupervisorEvent) -> bool {
    ev == SupervisorEvent::IdleExhausted || ev == SupervisorEvent::IdleChannelClosed
}

pub open spec fn is_idle_event(ev: SupervisorEvent) -> bool {
    ends_idle(ev) || ev == SupervisorEvent::IdleChanged
}

/// Whether the idle channel is still polled after the events `evs`.
pub open spec fn idle_open_after(open: bool, evs: Seq<SupervisorEvent>) -> bool
    decreases evs.len(),
{
    if evs.len() == 0 {
        open
    } else {
        idle_open_after(open, evs.drop_last()) && !ends_idle(evs.last())
    }
}

impl SupervisorLoop {
    /// A loop that polls the idle channel.
    pub fn new() -> (l: SupervisorLoop)
        ensures
            l@,
    {
        SupervisorLoop { idle_open: true }
    }

    /// Whether the idle channel is still polled.
    pub fn polls_idle(&self) -> (r: bool)
        ensures
            r == self@,
    {
        self.idle_open
    }

    /// The event to act on among the sources ready at once; `command` is
    /// `Some(true)` for a message and `Some(false)` for the channel's
    /// closing.
    pub fn pick(&self, shutdown: bool, command: Option<bool>, idle: Option<IdleSignal>) -> (r: Option<
        SupervisorEvent,
    >)
        ensures
            r == pick_spec(self@, shutdown, command, idle),
    {
        if shutdown {
            Some(SupervisorEvent::Shutdown)
        } else if let Some(has_message) = command {
            if has_message {
                Some(SupervisorEvent::Command)
            } else {
                Some(SupervisorEvent::CommandChannelClosed)
            }
        } else if self.idle_open {
            match idle {
                Some(IdleSignal::Changed) => Some(SupervisorEvent::IdleChanged),
                Some(IdleSignal::Exhausted) => Some(SupervisorEvent::IdleExhausted),
                Some(IdleSignal::Closed) => Some(SupervisorEvent::IdleChannelClosed),
                None => None,
            }
        } else {
            None
        }
    }

    /// Acts on `ev`: the action is `decide`'s, and once the idle channel has
    /// ended it is no longer polled.
    pub fn step(&mut self, ev: SupervisorEvent) -> (a: SupervisorAction)
        ensures
            a == decide_spec(ev),
            final(self)@ == (old(self)@ && !ends_idle(ev)),
    {
        if matches!(ev, SupervisorEvent::IdleExhausted | SupervisorEvent::IdleChannelClosed) {
            self.idle_open = false;
        }
        decide(ev)
    }
}

/// A shutdown signal wins over anything ready at the same time, and ends
/// the loop.
pub proof fn shutdown_takes_priority(idle_open: bool, command: Option<bool>, idle: Option<IdleSignal>)
    ensures
        pick_spec(idle_open, true, command, idle) == Some(SupervisorEvent::Shutdown),
        decide_spec(SupervisorEvent::Shutdown) == SupervisorAction::Exit,
        decide_spec(SupervisorEvent::CommandChannelClosed) == SupervisorAction::Exit,
{
}

/// Once the idle channel has ended (exhausted or closed), it is never
/// polled again whatever events follow, so no idle event is acted on;
/// commands and shutdown are still served. A change notice leads to
/// exactly one report.
pub proof fn ended_idle_is_not_polled(
    evs: Seq<SupervisorEvent>,
    shutdown: bool,
    command: Option<bool>,
    idle: Option<IdleSignal>,
)
    ensures
        !idle_open_after(false, evs),
        pick_spec(false, shutdown, command, idle) matches Some(ev) ==> !is_idle_event(ev),
        pick_spec(false, false, Some(true), idle) == Some(SupervisorEvent::Command),
        pick_spec(false, true, command, idle) == Some(SupervisorEvent::Shutdown),
        decide_spec(SupervisorEvent::IdleExhausted) == SupervisorAction::Continue,
        decide_spec(SupervisorEvent::IdleChanged) == SupervisorAction::EmitReport,
    decreases evs.len(),
{
    if evs.len() > 0 {
        ended_idle_is_not_polled(evs.drop_last(), shutdown, command, idle);
    }
}

/// A command whose first dispatch times out, or fails in transport, is not
/// given up: the connection is reopened after the first backoff delay of
/// 100 ms and the command retried. An `ACK`, a protocol breach or a
/// configuration error ends it at once, with no reconnect.
pub proof fn timeouts_and_transport_failures_reconnect(
    operation: Seq<char>,
    elapsed: Span,
    t: TransportErrorV,
    code: u32,
    pos: u32,
    cmd: Seq<char>,
    msg: Seq<char>,
    p: ProtocolErrorV,
    c: ConfigError,
)
    ensures
        calls_for_reconnect(MpdErrorV::Timeout { operation, elapsed }),
        calls_for_reconnect(MpdErrorV::Transport(t)),
        dispatch_spec(fresh_retry(), Err(MpdErrorV::Timeout { operation, elapsed })).1
            == StepV::Reconnect(100_000_000),
        dispatch_spec(fresh_retry(), Err(MpdErrorV::Transport(t))).1 == StepV::Reconnect(100_000_000),
        !calls_for_reconnect(MpdErrorV::Ack { code, list_position: pos, command: cmd, message: msg }),
        !calls_for_reconnect(MpdErrorV::Protocol(p)),
        !calls_for_reconnect(MpdErrorV::Config(c)),
{
    backoff_default_schedule(0);
    vstd::arithmetic::power2::lemma2_to64();
}

}
