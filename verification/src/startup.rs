//! How the controller starts.

use crate::action::{Action, Actions, Level};
use crate::buttons::{Buttons, Readings};
use crate::message::{Message, MessageQueue};
use crate::power::DcPowerState;
use crate::registers::{RegisterState, Registers};
use vstd::prelude::*;

verus! {

/// The state of a controller that has just started.
pub struct Startup {
    /// Tracks DC power state
    pub state_dc_power_enabled: DcPowerState,
    /// Whether the power LED is on
    pub led_state: bool,
    /// The power and reset buttons
    pub buttons: Buttons,
    /// Messages for the idle task
    pub queue: MessageQueue,
    /// What the host sees over SPI
    pub register_state: RegisterState,
    /// What to do to the hardware, in this order
    pub actions: Actions,
}

/// What starting up does to the hardware.
pub open spec fn startup_actions() -> Seq<Action> {
    seq![
        Action::SetSysReset(Level::Low),
        Action::SetDcOn(Level::Low),
        Action::SetLedPower(Level::Low),
        Action::SetBuzzer(Level::Low),
        Action::SpawnLedPowerBlink,
        Action::SpawnButtonPoll,
    ]
}

/// Starts up with the power off and the host in reset.
///
/// The tasks that run all the time are the LED blink task and the button task.
pub fn init(firmware_version: [u8; 32]) -> (r: Startup)
    ensures
        r.state_dc_power_enabled is Off,
        !r.led_state,
        r.buttons@ == Readings::released(),
        r.queue@ == Seq::<Message>::empty(),
        r.register_state@ == Registers::fresh(firmware_version@),
        r.register_state@.wf(),
        r.actions@ == startup_actions(),
{
    let actions = Actions::none().and(Action::SetSysReset(Level::Low)).and(
        Action::SetDcOn(Level::Low),
    ).and(Action::SetLedPower(Level::Low)).and(Action::SetBuzzer(Level::Low)).and(
        Action::SpawnLedPowerBlink,
    ).and(Action::SpawnButtonPoll);
    assert(actions@ =~= startup_actions());
    Startup {
        state_dc_power_enabled: DcPowerState::Off,
        led_state: false,
        buttons: Buttons::new(),
        queue: MessageQueue::new(),
        register_state: RegisterState::new(firmware_version),
        actions,
    }
}

} // verus!
