//! The power LED.

use crate::action::{Action, Actions, Level};
use crate::power::DcPowerState;
use vstd::prelude::*;

verus! {

/// At what rate do we blink the status LED when we're running?
pub const LED_PERIOD_MS: u64 = 1000;

/// What the blink task does, given whether the LED is on.
pub open spec fn blink_actions(power: DcPowerState, led_state: bool) -> Seq<Action> {
    if power is Off {
        seq![
            Action::SetLedPower(
                if led_state {
                    Level::Low
                } else {
                    Level::High
                },
            ),
            Action::ScheduleLedPowerBlink(LED_PERIOD_MS),
        ]
    } else {
        seq![Action::SetLedPower(Level::High)]
    }
}

/// Whether the LED is on after the blink task has run, given whether it was on before.
pub open spec fn blink_state(power: DcPowerState, led_state: bool) -> bool {
    if power is Off {
        !led_state
    } else {
        true
    }
}

/// This is the LED blink task.
///
/// With the power off, we check whether the LED is currently on or off, and set it to the
/// opposite. This makes the LED blink. With the power on, the LED is lit and we stop.
pub fn led_power_blink(power: DcPowerState, led_state: &mut bool) -> (actions: Actions)
    ensures
        actions@ == blink_actions(power, *old(led_state)),
        *final(led_state) == blink_state(power, *old(led_state)),
{
    let actions = match power {
        DcPowerState::Off => {
            let level = if *led_state {
                *led_state = false;
                Level::Low
            } else {
                *led_state = true;
                Level::High
            };
            Actions::none().and(Action::SetLedPower(level)).and(
                Action::ScheduleLedPowerBlink(LED_PERIOD_MS),
            )
        },
        DcPowerState::On | DcPowerState::Starting => {
            *led_state = true;
            Actions::none().and(Action::SetLedPower(Level::High))
        },
    };
    assert(actions@ =~= blink_actions(power, *old(led_state)));
    actions
}

} // verus!
