//! The power and reset buttons.

use crate::action::{Action, Actions};
use crate::message::{offered, Message, MessageQueue};
use vstd::prelude::*;

verus! {

/// How often we poll the power and reset buttons in milliseconds.
pub const DEBOUNCE_POLL_INTERVAL_MS: u64 = 75;

/// A change of a debounced button.
#[derive(Debug, Clone, Copy, PartialEq, Eq, Structural)]
pub enum Edge {
    Rising,
    Falling,
}

/// A `debouncr` debouncer.
#[verifier::external_type_specification]
#[verifier::external_body]
#[verifier::reject_recursive_types(S)]
#[verifier::reject_recursive_types(M)]
pub struct ExDebouncer<S, M>(debouncr::Debouncer<S, M>);

/// The mark of a debouncer over two readings.
#[verifier::external_type_specification]
#[verifier::external_body]
pub struct ExRepeat2(debouncr::Repeat2);

/// The mark of a debouncer over sixteen readings.
#[verifier::external_type_specification]
#[verifier::external_body]
pub struct ExRepeat16(debouncr::Repeat16);

/// The readings that a debouncer of two holds, oldest first.
pub uninterp spec fn readings_2(debouncer: debouncr::Debouncer<u8, debouncr::Repeat2>) -> Seq<bool>;

/// The readings that a debouncer of sixteen holds, oldest first.
pub uninterp spec fn readings_16(
    debouncer: debouncr::Debouncer<u16, debouncr::Repeat16>,
) -> Seq<bool>;

/// `n` readings that are all `pressed`.
pub open spec fn steady(n: nat, pressed: bool) -> Seq<bool> {
    Seq::new(n, |i: int| pressed)
}

/// `readings` without the oldest one, and with `pressed` as the newest.
pub open spec fn shifted(readings: Seq<bool>, pressed: bool) -> Seq<bool> {
    readings.drop_first().push(pressed)
}

/// The edge between two states of a debouncer: a state becomes all pressed, or all released.
pub open spec fn edge(before: Seq<bool>, after: Seq<bool>) -> Option<Edge> {
    if after == steady(after.len(), true) && before != after {
        Some(Edge::Rising)
    } else if after == steady(after.len(), false) && before != after {
        Some(Edge::Falling)
    } else {
        None
    }
}

/// `debouncr::debounce_2`.
///
/// Trusted: the new debouncer holds two readings of the given state.
#[verifier::external_body]
fn debounce_2(pressed: bool) -> (r: debouncr::Debouncer<u8, debouncr::Repeat2>)
    ensures
        readings_2(r) == steady(2, pressed),
{
    debouncr::debounce_2(pressed)
}

/// `debouncr::debounce_16`.
///
/// Trusted: the new debouncer holds sixteen readings of the given state.
#[verifier::external_body]
fn debounce_16(pressed: bool) -> (r: debouncr::Debouncer<u16, debouncr::Repeat16>)
    ensures
        readings_16(r) == steady(16, pressed),
{
    debouncr::debounce_16(pressed)
}

/// `debouncr::Debouncer::<u8, Repeat2>::update`.
///
/// Trusted: the oldest reading gives way to the new one; an edge is reported when that makes the
/// readings all pressed, or all released, and they were not so before.
#[verifier::external_body]
fn update_2(
    debouncer: &mut debouncr::Debouncer<u8, debouncr::Repeat2>,
    pressed: bool,
) -> (r: Option<Edge>)
    ensures
        readings_2(*final(debouncer)) == shifted(readings_2(*old(debouncer)), pressed),
        r == edge(readings_2(*old(debouncer)), readings_2(*final(debouncer))),
{
    match debouncer.update(pressed) {
        Some(debouncr::Edge::Rising) => Some(Edge::Rising),
        Some(debouncr::Edge::Falling) => Some(Edge::Falling),
        None => None,
    }
}

/// `debouncr::Debouncer::<u16, Repeat16>::update`.
///
/// Trusted: as for two readings, over sixteen.
#[verifier::external_body]
fn update_16(
    debouncer: &mut debouncr::Debouncer<u16, debouncr::Repeat16>,
    pressed: bool,
) -> (r: Option<Edge>)
    ensures
        readings_16(*final(debouncer)) == shifted(readings_16(*old(debouncer)), pressed),
        r == edge(readings_16(*old(debouncer)), readings_16(*final(debouncer))),
{
    match debouncer.update(pressed) {
        Some(debouncr::Edge::Rising) => Some(Edge::Rising),
        Some(debouncr::Edge::Falling) => Some(Edge::Falling),
        None => None,
    }
}

/// The debounced buttons.
pub struct Buttons {
    /// Tracks power button state for short presses. 75ms x 2 = 150ms is a short press
    press_button_power_short: debouncr::Debouncer<u8, debouncr::Repeat2>,
    /// Tracks power button state for long presses. 75ms x 16 = 1200ms is a long press
    press_button_power_long: debouncr::Debouncer<u16, debouncr::Repeat16>,
    /// Tracks reset button state for presses. 75ms x 2 = 150ms is a press
    press_button_reset_short: debouncr::Debouncer<u8, debouncr::Repeat2>,
}

/// The latest readings of both buttons, oldest first.
#[verifier::ext_equal]
pub struct Readings {
    pub power_short: Seq<bool>,
    pub power_long: Seq<bool>,
    pub reset_short: Seq<bool>,
}

impl View for Buttons {
    type V = Readings;

    closed spec fn view(&self) -> Readings {
        Readings {
            power_short: readings_2(self.press_button_power_short),
            power_long: readings_16(self.press_button_power_long),
            reset_short: readings_2(self.press_button_reset_short),
        }
    }
}

impl Readings {
    /// Both buttons have been up for as long as we remember.
    pub open spec fn released() -> Readings {
        Readings {
            power_short: steady(2, false),
            power_long: steady(16, false),
            reset_short: steady(2, false),
        }
    }

    /// The readings after one more poll.
    pub open spec fn polled(self, pwr_pressed: bool, rst_pressed: bool) -> Readings {
        Readings {
            power_short: shifted(self.power_short, pwr_pressed),
            power_long: shifted(self.power_long, pwr_pressed),
            reset_short: shifted(self.reset_short, rst_pressed),
        }
    }

    /// What that poll has to say about the power button held down for long.
    pub open spec fn long_press(self, after: Readings) -> Seq<Message> {
        if edge(self.power_long, after.power_long) == Some(Edge::Rising) {
            seq![Message::PowerButtonLongPress]
        } else {
            seq![]
        }
    }

    /// What that poll has to say about the power button going down or up.
    pub open spec fn short_press(self, after: Readings) -> Seq<Message> {
        match edge(self.power_short, after.power_short) {
            Some(Edge::Rising) => seq![Message::PowerButtonShortPress],
            Some(Edge::Falling) => seq![Message::PowerButtonRelease],
            None => seq![],
        }
    }

    /// What that poll has to say about the reset button.
    pub open spec fn reset_press(self, after: Readings) -> Seq<Message> {
        if edge(self.reset_short, after.reset_short) == Some(Edge::Rising) {
            seq![Message::ResetButtonShortPress]
        } else {
            seq![]
        }
    }

    /// The messages that one more poll gives rise to, in order.
    pub open spec fn messages(self, pwr_pressed: bool, rst_pressed: bool) -> Seq<Message> {
        let after = self.polled(pwr_pressed, rst_pressed);
        self.long_press(after) + self.short_press(after) + self.reset_press(after)
    }
}

impl Buttons {
    /// Both buttons released.
    pub fn new() -> (r: Buttons)
        ensures
            r@ == Readings::released(),
    {
        Buttons {
            press_button_power_short: debounce_2(false),
            press_button_power_long: debounce_16(false),
            press_button_reset_short: debounce_2(false),
        }
    }
}

/// Takes one reading of the power and the reset button, and posts what changed.
///
/// A message that finds the queue full is dropped.
pub fn button_poll(
    pwr_pressed: bool,
    rst_pressed: bool,
    buttons: &mut Buttons,
    queue: &mut MessageQueue,
) -> (actions: Actions)
    ensures
        final(buttons)@ == old(buttons)@.polled(pwr_pressed, rst_pressed),
        final(queue)@ == offered(old(queue)@, old(buttons)@.messages(pwr_pressed, rst_pressed)),
        actions@ == seq![Action::ScheduleButtonPoll(DEBOUNCE_POLL_INTERVAL_MS)],
{
    // Update state
    let pwr_short_edge = update_2(&mut buttons.press_button_power_short, pwr_pressed);
    let pwr_long_edge = update_16(&mut buttons.press_button_power_long, pwr_pressed);
    let rst_edge = update_2(&mut buttons.press_button_reset_short, rst_pressed);

    let ghost before = old(buttons)@;
    let ghost after = before.polled(pwr_pressed, rst_pressed);
    let ghost waiting = old(queue)@;
    assert(buttons@ == after);

    if pwr_long_edge == Some(Edge::Rising) {
        // They pressed it a really long time
        let _ = queue.post(Message::PowerButtonLongPress);
    }
    assert(queue@ =~= offered(waiting, before.long_press(after)));
    match pwr_short_edge {
        Some(Edge::Rising) => {
            // They pressed the power button (could be a short press, could be a long press)
            let _ = queue.post(Message::PowerButtonShortPress);
        },
        Some(Edge::Falling) => {
            // They released the power button
            let _ = queue.post(Message::PowerButtonRelease);
        },
        None => {},
    }
    assert(queue@ =~= offered(waiting, before.long_press(after) + before.short_press(after)));
    if rst_edge == Some(Edge::Rising) {
        // They pressed the reset button.
        let _ = queue.post(Message::ResetButtonShortPress);
    }
    assert(queue@ =~= offered(waiting, before.messages(pwr_pressed, rst_pressed)));
    // Re-schedule the timer interrupt
    Actions::none().and(Action::ScheduleButtonPoll(DEBOUNCE_POLL_INTERVAL_MS))
}

} // verus!
