//! The decisions of the control loop, as a state machine that the caller
//! drives: the caller performs each action that a step returns and hands the
//! outcome back as the next event.
//!
//! A tick samples the sensors, validates the reading, obtains the battery
//! level (from the reading itself, or from a separate device through its
//! bridge), applies the threshold rule, actuates the switch, notifies, and
//! sleeps for the long interval. A missing or invalid reading ends the tick
//! early with the short recovery interval. A failed bridge query ends it
//! without a decision. The outcome of an actuation is reported but does not
//! change what later ticks decide: no state crosses a tick.

use vstd::prelude::*;
use crate::bridge::{BridgeError, remote_outcome};
use crate::policy::{SwitchCommand, decide, decision};
use crate::reading::SystemInfo;

verus! {

/// Seconds to wait before sampling again after a missing or invalid reading.
pub const RECOVERY_SECS: u64 = 60;

/// Seconds to wait between complete ticks.
pub const TICK_SECS: u64 = 300;

/// Where the battery level that decides a tick comes from.
#[derive(Clone, Copy, Debug, PartialEq, Eq, Structural)]
pub enum LevelSource {
    /// The percentage of the local reading.
    Local,
    /// A separate device, queried through its debug bridge.
    Remote,
}

/// Where a tick stands.
#[derive(Clone, Copy, Debug, PartialEq, Eq, Structural)]
pub enum Phase {
    /// Waiting for a reading of the sensors.
    Sampling,
    /// Waiting for the remote battery level.
    AwaitingLevel,
    /// Waiting for the outcome of a switch command.
    Actuating(SwitchCommand),
    /// Waiting for the notification to be shown.
    Notifying,
    /// Waiting for the sleep to end.
    Sleeping,
}

/// What the caller is to do next.
#[derive(Clone, Copy, Debug, PartialEq, Eq, Structural)]
pub enum Action {
    /// Read the sensors, and report `Event::Sampled`.
    Sample,
    /// Query the remote battery level, and report `Event::LevelRead`.
    ReadRemoteLevel,
    /// Send the switch command, and report `Event::Actuated`.
    Actuate(SwitchCommand),
    /// Tell the user how the command went, and report `Event::Notified`.
    Notify { command: SwitchCommand, succeeded: bool },
    /// Sleep for this many seconds, and report `Event::Woke`.
    Sleep(u64),
}

/// What happened when the caller performed an action.
#[derive(Debug)]
pub enum Event {
    /// The sensors were read; `None` when they could not be read at all.
    Sampled(Option<SystemInfo>),
    /// The remote battery level, in thousandths of a percent, or why it could
    /// not be had.
    LevelRead(Result<i64, BridgeError>),
    /// The switch command was sent (`true`) or failed in transport (`false`).
    Actuated(bool),
    /// The notification was handed over.
    Notified,
    /// The sleep ended.
    Woke,
}

/// The phase and action that follow a decision on `level_milli`.
pub open spec fn after_level(level_milli: int) -> (Phase, Action) {
    match decision(level_milli) {
        Some(c) => (Phase::Actuating(c), Action::Actuate(c)),
        None => (Phase::Sleeping, Action::Sleep(TICK_SECS)),
    }
}

/// The next phase and action of a loop in `phase`, whose level comes from
/// `source`, when `event` happens. An event that the phase does not wait for
/// abandons the tick and waits the recovery interval.
pub open spec fn transition(source: LevelSource, phase: Phase, event: Event) -> (Phase, Action) {
    match (phase, event) {
        (Phase::Sampling, Event::Sampled(reading)) => match reading {
            Some(info) => if !info.is_valid() {
                (Phase::Sleeping, Action::Sleep(RECOVERY_SECS))
            } else if source == LevelSource::Remote {
                (Phase::AwaitingLevel, Action::ReadRemoteLevel)
            } else {
                after_level(info.battery_percentage->0 as int)
            },
            None => (Phase::Sleeping, Action::Sleep(RECOVERY_SECS)),
        },
        (Phase::AwaitingLevel, Event::LevelRead(level)) => match level {
            Ok(l) => after_level(l as int),
            Err(_) => (Phase::Sleeping, Action::Sleep(TICK_SECS)),
        },
        (Phase::Actuating(c), Event::Actuated(ok)) => (
            Phase::Notifying,
            Action::Notify { command: c, succeeded: ok },
        ),
        (Phase::Notifying, Event::Notified) => (Phase::Sleeping, Action::Sleep(TICK_SECS)),
        (Phase::Sleeping, Event::Woke) => (Phase::Sampling, Action::Sample),
        _ => (Phase::Sleeping, Action::Sleep(RECOVERY_SECS)),
    }
}

/// The decision-making part of the control loop.
#[derive(Clone, Copy, Debug)]
pub struct Controller {
    pub source: LevelSource,
    pub phase: Phase,
}

fn level_step(level_milli: i64) -> (r: (Phase, Action))
    ensures
        r == after_level(level_milli as int),
{
    match decide(level_milli) {
        Some(c) => (Phase::Actuating(c), Action::Actuate(c)),
        None => (Phase::Sleeping, Action::Sleep(TICK_SECS)),
    }
}

impl Controller {
    /// A loop that starts by sampling the sensors.
    pub fn new(source: LevelSource) -> (r: (Controller, Action))
        ensures
            r.0.source == source,
            r.0.phase == Phase::Sampling,
            r.1 == Action::Sample,
    {
        (Controller { source, phase: Phase::Sampling }, Action::Sample)
    }

    /// Moves on by `event` and returns what the caller is to do next.
    pub fn step(&mut self, event: Event) -> (r: Action)
        ensures
            final(self).source == old(self).source,
            (final(self).phase, r) == transition(old(self).source, old(self).phase, event),
    {
        let (phase, action) = match (self.phase, event) {
            (Phase::Sampling, Event::Sampled(reading)) => match reading {
                Some(info) => if !info.validate() {
                    (Phase::Sleeping, Action::Sleep(RECOVERY_SECS))
                } else {
                    match self.source {
                        LevelSource::Remote => (Phase::AwaitingLevel, Action::ReadRemoteLevel),
                        LevelSource::Local => match info.battery_percentage {
                            Some(p) => level_step(p),
                            None => (Phase::Sleeping, Action::Sleep(RECOVERY_SECS)),
                        },
                    }
                },
                None => (Phase::Sleeping, Action::Sleep(RECOVERY_SECS)),
            },
            (Phase::AwaitingLevel, Event::LevelRead(level)) => match level {
                Ok(l) => level_step(l),
                Err(_) => (Phase::Sleeping, Action::Sleep(TICK_SECS)),
            },
            (Phase::Actuating(c), Event::Actuated(ok)) => (
                Phase::Notifying,
                Action::Notify { command: c, succeeded: ok },
            ),
            (Phase::Notifying, Event::Notified) => (Phase::Sleeping, Action::Sleep(TICK_SECS)),
            (Phase::Sleeping, Event::Woke) => (Phase::Sampling, Action::Sample),
            _ => (Phase::Sleeping, Action::Sleep(RECOVERY_SECS)),
        };
        self.phase = phase;
        action
    }
}

/// A tick whose sensors could not be read does not actuate: it waits the
/// recovery interval, not the long one, and samples again.
pub proof fn lemma_missing_reading_recovers(source: LevelSource)
    ensures
        transition(source, Phase::Sampling, Event::Sampled(None)) == (
            Phase::Sleeping,
            Action::Sleep(RECOVERY_SECS),
        ),
        transition(source, Phase::Sleeping, Event::Woke) == (Phase::Sampling, Action::Sample),
{
}

/// An invalid reading is never acted on: the tick ends with the recovery
/// interval, whatever the reading holds.
pub proof fn lemma_invalid_reading_recovers(source: LevelSource, info: SystemInfo)
    requires
        !info.is_valid(),
    ensures
        transition(source, Phase::Sampling, Event::Sampled(Some(info))) == (
            Phase::Sleeping,
            Action::Sleep(RECOVERY_SECS),
        ),
{
}

/// A failed bridge command skips the decision: the error carries the
/// bridge's own text, no command is sent, and the tick ends with the long
/// interval.
pub proof fn lemma_bridge_failure_skips_decision(
    r: Result<i64, BridgeError>,
    stdout: Seq<char>,
    stderr: Seq<char>,
)
    requires
        remote_outcome(r, false, stdout, stderr),
    ensures
        r matches Err(BridgeError::BridgeUnavailable { diagnostic }) && diagnostic@ == stderr,
        transition(LevelSource::Remote, Phase::AwaitingLevel, Event::LevelRead(r)) == (
            Phase::Sleeping,
            Action::Sleep(TICK_SECS),
        ),
{
}

/// Actuation keeps no state: whether the command went through or not, the
/// loop notifies, sleeps the long interval and starts the next tick in the
/// same phase, so the same level leads to the same command again.
pub proof fn lemma_actuation_outcome_is_forgotten(
    source: LevelSource,
    command: SwitchCommand,
    ok: bool,
)
    ensures
        transition(source, Phase::Actuating(command), Event::Actuated(ok)) == (
            Phase::Notifying,
            Action::Notify { command, succeeded: ok },
        ),
        transition(source, Phase::Notifying, Event::Notified) == (
            Phase::Sleeping,
            Action::Sleep(TICK_SECS),
        ),
        transition(source, Phase::Sleeping, Event::Woke).0 == Phase::Sampling,
{
}

/// A valid local reading below the low threshold switches the charger on.
pub proof fn lemma_low_local_reading_turns_on(info: SystemInfo)
    requires
        info.is_valid(),
        info.battery_percentage->0 < crate::policy::LOW_MILLI,
    ensures
        transition(LevelSource::Local, Phase::Sampling, Event::Sampled(Some(info))) == (
            Phase::Actuating(SwitchCommand::TurnOn),
            Action::Actuate(SwitchCommand::TurnOn),
        ),
{
}

} // verus!
