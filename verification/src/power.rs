//! The state of the DC power, and the end of a reset.

use crate::action::{Action, Actions, Level};
use crate::message::Message;
use vstd::prelude::*;

verus! {

/// Length of a reset pulse, in milliseconds
pub const RESET_DURATION_MS: u64 = 250;

/// The states we can be in controlling the DC power
#[derive(Debug, Clone, Copy, PartialEq, Eq, Structural)]
pub enum DcPowerState {
    /// We've just enabled the DC power (so ignore any incoming long presses!)
    Starting,
    /// We are now fully on. Look for a long press to turn off.
    On,
    /// We are fully off.
    Off,
}

impl DcPowerState {
    /// The state after `message`.
    pub open spec fn after(self, message: Message) -> DcPowerState {
        match (self, message) {
            (DcPowerState::Off, Message::PowerButtonShortPress) => DcPowerState::Starting,
            (DcPowerState::Starting, Message::PowerButtonRelease) => DcPowerState::On,
            (DcPowerState::On, Message::PowerButtonLongPress) => DcPowerState::Off,
            _ => self,
        }
    }

    /// What `message` has us do in this state.
    pub open spec fn actions(self, message: Message) -> Seq<Action> {
        match (self, message) {
            (DcPowerState::On, Message::PowerButtonLongPress) => seq![
                Action::StopSpi,
                Action::SetSysReset(Level::Low),
                Action::SetDcOn(Level::Low),
                Action::SpawnLedPowerBlink,
            ],
            (DcPowerState::Off, Message::PowerButtonShortPress) => seq![
                Action::SetSysReset(Level::Low),
                Action::SetDcOn(Level::High),
                Action::ScheduleExitReset(RESET_DURATION_MS),
            ],
            (DcPowerState::On, Message::ResetButtonShortPress) => seq![
                Action::SetSysReset(Level::Low),
                Action::ResetSpi,
                Action::ScheduleExitReset(RESET_DURATION_MS),
            ],
            (DcPowerState::Off, Message::SpiEnable) => seq![],
            (_, Message::SpiEnable) => seq![Action::StartSpi],
            (_, Message::SpiDisable) => seq![Action::StopSpi],
            _ => seq![],
        }
    }

    /// The number of this state.
    pub fn code(self) -> (r: u8)
        ensures
            r == (match self {
                DcPowerState::Off => 0u8,
                DcPowerState::Starting => 1u8,
                DcPowerState::On => 2u8,
            }),
    {
        match self {
            DcPowerState::Off => 0,
            DcPowerState::Starting => 1,
            DcPowerState::On => 2,
        }
    }

    /// What ending a reset takes in this state.
    pub open spec fn exit_reset_actions(self) -> Seq<Action> {
        if self is Off {
            seq![]
        } else {
            seq![Action::SetSysReset(Level::High)]
        }
    }
}

/// Return the reset line high (inactive), but only if we're still powered on.
pub fn exit_reset(power: DcPowerState) -> (actions: Actions)
    ensures
        actions@ == power.exit_reset_actions(),
{
    if power != DcPowerState::Off {
        // Raising the reset line takes the rest of the system out of reset
        let actions = Actions::none().and(Action::SetSysReset(Level::High));
        assert(actions@ =~= power.exit_reset_actions());
        actions
    } else {
        Actions::none()
    }
}

} // verus!
