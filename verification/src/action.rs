//! What the tasks want done to the hardware, and what that makes of the output pins.

use vstd::prelude::*;

verus! {

/// The level of a pin.
#[derive(Debug, Clone, Copy, PartialEq, Eq, Structural)]
pub enum Level {
    Low,
    High,
}

/// One thing to do to the hardware, or to have done later.
#[derive(Debug, Clone, Copy, PartialEq, Eq, Structural)]
pub enum Action {
    /// Drive the system reset line. Low holds the host in reset.
    SetSysReset(Level),
    /// Drive the enable pin of the DC-DC PSU.
    SetDcOn(Level),
    /// Drive the power LED.
    SetLedPower(Level),
    /// Drive the buzzer.
    SetBuzzer(Level),
    /// Turn on the SPI peripheral.
    StartSpi,
    /// Turn off the SPI peripheral.
    StopSpi,
    /// Reset the SPI peripheral.
    ResetSpi,
    /// Run the LED blink task.
    SpawnLedPowerBlink,
    /// Run the LED blink task after this many milliseconds.
    ScheduleLedPowerBlink(u64),
    /// Run the button task.
    SpawnButtonPoll,
    /// Run the button task after this many milliseconds.
    ScheduleButtonPoll(u64),
    /// Run the task that ends a reset after this many milliseconds, unless it is due already.
    ScheduleExitReset(u64),
}

/// The most actions that one task asks for at once.
pub const MAX_ACTIONS: usize = 6;

/// Actions to perform one after the other.
#[derive(Debug, Clone, Copy)]
pub struct Actions {
    steps: [Action; 6],
    count: usize,
}

impl View for Actions {
    type V = Seq<Action>;

    closed spec fn view(&self) -> Seq<Action> {
        self.steps@.take(self.count as int)
    }
}

impl Actions {
    #[verifier::type_invariant]
    spec fn bounded(self) -> bool {
        self.count <= 6
    }

    /// Nothing to do.
    pub(crate) fn none() -> (r: Actions)
        ensures
            r@ == Seq::<Action>::empty(),
    {
        let r = Actions { steps: [Action::StopSpi; 6], count: 0 };
        assert(r@ =~= Seq::<Action>::empty());
        r
    }

    /// These actions, and `action` after them.
    pub(crate) fn and(self, action: Action) -> (r: Actions)
        requires
            self@.len() < MAX_ACTIONS,
        ensures
            r@ == self@.push(action),
    {
        proof {
            use_type_invariant(&self);
        }
        let mut steps: [Action; 6] = self.steps;
        let count: usize = self.count;
        steps[count] = action;
        let r = Actions { steps, count: count + 1 };
        assert(r@ =~= self@.push(action));
        r
    }

    /// How many actions these are.
    pub fn len(&self) -> (r: usize)
        ensures
            r == self@.len(),
    {
        proof {
            use_type_invariant(self);
        }
        self.count
    }

    /// The action at position `index`, if there are as many.
    pub fn get(&self, index: usize) -> (r: Option<Action>)
        ensures
            r == (if index < self@.len() {
                Some(self@[index as int])
            } else {
                None
            }),
    {
        proof {
            use_type_invariant(self);
        }
        if index < self.count {
            Some(self.steps[index])
        } else {
            None
        }
    }
}

/// The levels of the output pins.
pub struct Outputs {
    pub dc_on: Level,
    pub sys_reset: Level,
    pub led_power: Level,
    pub buzzer: Level,
}

impl Outputs {
    /// The levels after one action.
    pub open spec fn after(self, action: Action) -> Outputs {
        match action {
            Action::SetSysReset(level) => Outputs { sys_reset: level, ..self },
            Action::SetDcOn(level) => Outputs { dc_on: level, ..self },
            Action::SetLedPower(level) => Outputs { led_power: level, ..self },
            Action::SetBuzzer(level) => Outputs { buzzer: level, ..self },
            _ => self,
        }
    }

    /// The levels after `actions`, one after the other.
    pub open spec fn after_all(self, actions: Seq<Action>) -> Outputs
        decreases actions.len(),
    {
        if actions.len() == 0 {
            self
        } else {
            self.after(actions[0]).after_all(actions.drop_first())
        }
    }
}

} // verus!
