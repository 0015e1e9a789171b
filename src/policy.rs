//! The threshold rule that turns a battery level into a switch command.
//!
//! Below 20% the charger is switched on, above 80% it is switched off, and
//! from 20% to 80% inclusive nothing is done. Each level is decided on its
//! own: no earlier decision is remembered.

use vstd::prelude::*;

verus! {

/// Levels below this, in thousandths of a percent, switch the charger on.
pub const LOW_MILLI: i64 = 20_000;

/// Levels above this, in thousandths of a percent, switch the charger off.
pub const HIGH_MILLI: i64 = 80_000;

/// What the remote switch is told to do.
#[derive(Clone, Copy, Debug, PartialEq, Eq, Structural)]
pub enum SwitchCommand {
    TurnOn,
    TurnOff,
}

/// The command, if any, that a battery level calls for.
pub open spec fn decision(level_milli: int) -> Option<SwitchCommand> {
    if level_milli < LOW_MILLI {
        Some(SwitchCommand::TurnOn)
    } else if level_milli > HIGH_MILLI {
        Some(SwitchCommand::TurnOff)
    } else {
        None
    }
}

/// The command, if any, that a battery level (thousandths of a percent)
/// calls for.
pub fn decide(level_milli: i64) -> (r: Option<SwitchCommand>)
    ensures
        r == decision(level_milli as int),
        level_milli < LOW_MILLI ==> r == Some(SwitchCommand::TurnOn),
        level_milli > HIGH_MILLI ==> r == Some(SwitchCommand::TurnOff),
        LOW_MILLI <= level_milli <= HIGH_MILLI ==> r is None,
{
    if level_milli < LOW_MILLI {
        Some(SwitchCommand::TurnOn)
    } else if level_milli > HIGH_MILLI {
        Some(SwitchCommand::TurnOff)
    } else {
        None
    }
}

} // verus!
