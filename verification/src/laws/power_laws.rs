//! How the power, the reset line and the LED behave over time.

use crate::action::{Action, Level, Outputs};
use crate::led::{blink_actions, blink_state};
use crate::message::Message;
use crate::power::{DcPowerState, RESET_DURATION_MS};
use crate::startup::startup_actions;
use vstd::prelude::*;

verus! {

/// The power is turned on by a press of the power button while it is off, is fully on once that
/// button is let go, and is turned off by a long press while it is fully on. Nothing else changes
/// it.
pub proof fn power_changes(power: DcPowerState, message: Message)
    ensures
        power.after(message) != power <==> {
            ||| power is Off && message is PowerButtonShortPress
            ||| power is Starting && message is PowerButtonRelease
            ||| power is On && message is PowerButtonLongPress
        },
        power is Off && message is PowerButtonShortPress ==> power.after(message) is Starting,
        power is Starting && message is PowerButtonRelease ==> power.after(message) is On,
        power is On && message is PowerButtonLongPress ==> power.after(message) is Off,
{
}

/// Until the button that turned the power on is let go, no button does anything: in particular a
/// long press is ignored.
pub proof fn buttons_are_ignored_while_starting(message: Message)
    requires
        message is PowerButtonShortPress || message is PowerButtonLongPress
            || message is ResetButtonShortPress,
    ensures
        DcPowerState::Starting.after(message) is Starting,
        DcPowerState::Starting.actions(message).len() == 0,
{
}

/// With the power off there is no reset, and the SPI peripheral is not turned on: only a press of
/// the power button does anything, but for chip select going inactive.
pub proof fn nothing_runs_while_off(message: Message)
    requires
        !(message is PowerButtonShortPress),
    ensures
        DcPowerState::Off.after(message) is Off,
        DcPowerState::Off.actions(message) == if message is SpiDisable {
            seq![Action::StopSpi]
        } else {
            seq![]
        },
        DcPowerState::Off.exit_reset_actions().len() == 0,
{
}

/// The DC supply is switched only after the host was put in reset.
pub proof fn supply_is_switched_in_reset(power: DcPowerState, message: Message, i: int)
    requires
        0 <= i < power.actions(message).len(),
        power.actions(message)[i] is SetDcOn,
    ensures
        exists|j: int|
            0 <= j < i && power.actions(message)[j] == Action::SetSysReset(Level::Low),
{
    let actions = power.actions(message);
    if power is On {
        assert(actions[1] == Action::SetSysReset(Level::Low));
    } else {
        assert(actions[0] == Action::SetSysReset(Level::Low));
    }
}

/// A reset ends: whenever a message puts the host in reset and leaves the power on, it also has
/// the reset line raised again a reset pulse later.
pub proof fn reset_is_temporary(power: DcPowerState, message: Message)
    requires
        power.actions(message).contains(Action::SetSysReset(Level::Low)),
        !(power.after(message) is Off),
    ensures
        power.actions(message).contains(Action::ScheduleExitReset(RESET_DURATION_MS)),
        power.after(message).exit_reset_actions() == seq![Action::SetSysReset(Level::High)],
{
    let actions = power.actions(message);
    assert(actions[2] == Action::ScheduleExitReset(RESET_DURATION_MS));
}

/// The parts of the controller that have to do with the power.
pub struct System {
    /// The state of the DC power.
    pub power: DcPowerState,
    /// Whether the blink task takes the LED to be on.
    pub led_state: bool,
    /// The levels of the output pins.
    pub outputs: Outputs,
    /// What the idle task has yet to do to the hardware.
    pub pending: Seq<Action>,
}

/// Something that happens in the controller. The tasks interrupt the idle task, between any two of
/// its actions.
pub enum Event {
    /// The idle task deals with a message.
    Handle(Message),
    /// The idle task performs its next action.
    Perform,
    /// The task that ends a reset runs.
    ExitReset,
    /// The LED blink task runs.
    Blink,
}

impl System {
    /// The controller when it has just started, whatever the levels of the pins were before.
    pub open spec fn started(outputs: Outputs) -> System {
        System {
            power: DcPowerState::Off,
            led_state: false,
            outputs: outputs.after_all(startup_actions()),
            pending: Seq::empty(),
        }
    }

    /// The controller after `event`.
    pub open spec fn after(self, event: Event) -> System {
        match event {
            Event::Handle(message) => if self.pending.len() == 0 {
                System {
                    power: self.power.after(message),
                    pending: self.power.actions(message),
                    ..self
                }
            } else {
                self
            },
            Event::Perform => if self.pending.len() > 0 {
                System {
                    outputs: self.outputs.after(self.pending[0]),
                    pending: self.pending.drop_first(),
                    ..self
                }
            } else {
                self
            },
            Event::ExitReset => System {
                outputs: self.outputs.after_all(self.power.exit_reset_actions()),
                ..self
            },
            Event::Blink => System {
                outputs: self.outputs.after_all(blink_actions(self.power, self.led_state)),
                led_state: blink_state(self.power, self.led_state),
                ..self
            },
        }
    }

    /// The controller after `events`.
    pub open spec fn after_all(self, events: Seq<Event>) -> System
        decreases events.len(),
    {
        if events.len() == 0 {
            self
        } else {
            self.after_all(events.drop_last()).after(events.last())
        }
    }

    /// Once the idle task has done what it has to do, the supply is on exactly when the power is
    /// not off; and when the power is off the host is in reset.
    pub open spec fn safe(self) -> bool {
        let outputs = self.outputs.after_all(self.pending);
        &&& outputs.dc_on == if self.power is Off {
            Level::Low
        } else {
            Level::High
        }
        &&& self.power is Off ==> outputs.sys_reset == Level::Low
    }
}

/// The supply after `actions` depends on the supply before alone, and so does the reset line.
proof fn outputs_are_independent(a: Outputs, b: Outputs, actions: Seq<Action>)
    ensures
        a.dc_on == b.dc_on ==> a.after_all(actions).dc_on == b.after_all(actions).dc_on,
        a.sys_reset == b.sys_reset ==> a.after_all(actions).sys_reset == b.after_all(
            actions,
        ).sys_reset,
    decreases actions.len(),
{
    if actions.len() > 0 {
        outputs_are_independent(a.after(actions[0]), b.after(actions[0]), actions.drop_first());
    }
}

/// The levels after a few actions, spelt out.
proof fn outputs_after_few(outputs: Outputs, actions: Seq<Action>)
    ensures
        actions.len() == 0 ==> outputs.after_all(actions) == outputs,
        actions.len() == 1 ==> outputs.after_all(actions) == outputs.after(actions[0]),
        actions.len() == 2 ==> outputs.after_all(actions) == outputs.after(actions[0]).after(
            actions[1],
        ),
        actions.len() == 3 ==> outputs.after_all(actions) == outputs.after(actions[0]).after(
            actions[1],
        ).after(actions[2]),
        actions.len() == 4 ==> outputs.after_all(actions) == outputs.after(actions[0]).after(
            actions[1],
        ).after(actions[2]).after(actions[3]),
        actions.len() == 6 ==> outputs.after_all(actions) == outputs.after(actions[0]).after(
            actions[1],
        ).after(actions[2]).after(actions[3]).after(actions[4]).after(actions[5]),
{
    reveal_with_fuel(Outputs::after_all, 7);
}

/// Whatever happens after the controller has started, and in whatever order: once the idle task
/// has done what it has to do, the supply is on exactly when the power is not off, and with the
/// power off the host is held in reset.
pub proof fn power_off_means_supply_off_and_reset(outputs: Outputs, events: Seq<Event>)
    ensures
        System::started(outputs).after_all(events).safe(),
        ({
            let system = System::started(outputs).after_all(events);
            system.pending.len() == 0 ==> {
                &&& system.outputs.dc_on == Level::High <==> !(system.power is Off)
                &&& system.power is Off ==> system.outputs.sys_reset == Level::Low
            }
        }),
    decreases events.len(),
{
    if events.len() == 0 {
        outputs_after_few(outputs, startup_actions());
    } else {
        let before = System::started(outputs).after_all(events.drop_last());
        let after = before.after(events.last());
        power_off_means_supply_off_and_reset(outputs, events.drop_last());
        match events.last() {
            Event::Handle(message) => {
                if before.pending.len() == 0 {
                    outputs_after_few(before.outputs, before.power.actions(message));
                }
            },
            Event::Perform => {},
            Event::ExitReset => {
                outputs_after_few(before.outputs, before.power.exit_reset_actions());
                outputs_are_independent(before.outputs, after.outputs, before.pending);
            },
            Event::Blink => {
                outputs_after_few(before.outputs, blink_actions(before.power, before.led_state));
                outputs_are_independent(before.outputs, after.outputs, before.pending);
            },
        }
    }
}

/// What the idle task does to the hardware leaves the LED alone.
proof fn idle_leaves_led(power: DcPowerState, message: Message)
    ensures
        forall|i: int|
            0 <= i < power.actions(message).len() ==> !(#[trigger] power.actions(
                message,
            )[i] is SetLedPower),
{
}

/// The blink task knows whether the LED is on, and the idle task has nothing to do to it.
proof fn led_state_follows_led(outputs: Outputs, events: Seq<Event>)
    ensures
        ({
            let system = System::started(outputs).after_all(events);
            &&& system.outputs.led_power == Level::High <==> system.led_state
            &&& forall|i: int|
                0 <= i < system.pending.len() ==> !(#[trigger] system.pending[i] is SetLedPower)
        }),
    decreases events.len(),
{
    if events.len() == 0 {
        outputs_after_few(outputs, startup_actions());
    } else {
        let before = System::started(outputs).after_all(events.drop_last());
        led_state_follows_led(outputs, events.drop_last());
        match events.last() {
            Event::Handle(message) => {
                idle_leaves_led(before.power, message);
            },
            Event::Perform => {},
            Event::ExitReset => {
                outputs_after_few(before.outputs, before.power.exit_reset_actions());
            },
            Event::Blink => {
                outputs_after_few(before.outputs, blink_actions(before.power, before.led_state));
            },
        }
    }
}

/// Whatever has happened since the controller started, power cycles included: the blink task knows
/// whether the LED is on. With the power off it sets the LED to the opposite of what it is, which
/// makes it blink; with the power on it lights the LED.
pub proof fn led_blinks_while_off(outputs: Outputs, events: Seq<Event>)
    ensures
        ({
            let system = System::started(outputs).after_all(events);
            let led_power = system.after(Event::Blink).outputs.led_power;
            &&& system.outputs.led_power == Level::High <==> system.led_state
            &&& system.power is Off ==> led_power != system.outputs.led_power
            &&& !(system.power is Off) ==> led_power == Level::High
        }),
{
    let system = System::started(outputs).after_all(events);
    led_state_follows_led(outputs, events);
    outputs_after_few(system.outputs, blink_actions(system.power, system.led_state));
}

/// With the power on the LED is lit, and the blink task is not run again: powering off is what
/// starts it anew.
pub proof fn led_is_lit_while_on(power: DcPowerState, led_state: bool)
    requires
        !(power is Off),
    ensures
        blink_actions(power, led_state) == seq![Action::SetLedPower(Level::High)],
        DcPowerState::On.actions(Message::PowerButtonLongPress).contains(
            Action::SpawnLedPowerBlink,
        ),
{
    let actions = DcPowerState::On.actions(Message::PowerButtonLongPress);
    assert(actions[3] == Action::SpawnLedPowerBlink);
}

} // verus!
