//! What the other tasks do, call by call.

use crate::action::{Action, Actions, Level};
use crate::buttons::{button_poll, Buttons};
use crate::interrupts::{
    chip_select_edge, exti4_15_interrupt, ps2_clock_edge, usart1_interrupt, QueueFull,
};
use crate::led::led_power_blink;
use crate::message::{Message, MessageQueue};
use crate::power::{exit_reset, DcPowerState};
use crate::startup::{init, Startup};
use vstd::prelude::*;

verus! {

/// The end of a reset raises the reset line, and does nothing else; with the power off it does
/// nothing at all.
pub proof fn reset_ends_with_power_alone(power: DcPowerState, actions: Actions)
    requires
        call_ensures(exit_reset, (power,), actions),
    ensures
        power == DcPowerState::Off ==> actions@.len() == 0,
        power != DcPowerState::Off ==> actions@.len() == 1 && actions@[0] == Action::SetSysReset(
            Level::High,
        ),
{
}

/// The blink task drives the LED first, to what it then takes it to be. With the power off that is
/// the opposite of what it was, and the task comes again after a second; with the power on the LED
/// is lit, and that is all.
pub proof fn blink_inverts_or_lights(power: DcPowerState, led_state: &mut bool, actions: Actions)
    requires
        call_ensures(led_power_blink, (power, led_state), actions),
    ensures
        actions@.len() >= 1,
        actions@[0] == Action::SetLedPower(Level::High) <==> *final(led_state),
        actions@[0] == Action::SetLedPower(Level::Low) <==> !*final(led_state),
        power == DcPowerState::Off ==> {
            &&& *final(led_state) != *old(led_state)
            &&& actions@.len() == 2
            &&& actions@[1] == Action::ScheduleLedPowerBlink(1000)
        },
        power != DcPowerState::Off ==> *final(led_state) && actions@.len() == 1,
{
}

/// A poll puts its reading at the end of each window of its button, drops the oldest there, and
/// comes again after 75 milliseconds.
pub proof fn poll_moves_the_windows(
    pwr_pressed: bool,
    rst_pressed: bool,
    buttons: &mut Buttons,
    queue: &mut MessageQueue,
    actions: Actions,
)
    requires
        call_ensures(button_poll, (pwr_pressed, rst_pressed, buttons, queue), actions),
        old(buttons)@.wf(),
    ensures
        final(buttons)@.wf(),
        final(buttons)@.power_short.last() == pwr_pressed,
        final(buttons)@.power_long.last() == pwr_pressed,
        final(buttons)@.reset_short.last() == rst_pressed,
        final(buttons)@.power_short.drop_last() == old(buttons)@.power_short.drop_first(),
        final(buttons)@.power_long.drop_last() == old(buttons)@.power_long.drop_first(),
        final(buttons)@.reset_short.drop_last() == old(buttons)@.reset_short.drop_first(),
        actions@.len() == 1,
        actions@[0] == Action::ScheduleButtonPoll(75),
{
    let b = old(buttons)@;
    let a = final(buttons)@;
    assert(a.power_short.drop_last() =~= b.power_short.drop_first());
    assert(a.power_long.drop_last() =~= b.power_long.drop_first());
    assert(a.reset_short.drop_last() =~= b.reset_short.drop_first());
}

/// Whether the readings in `window` are all `pressed`.
pub open spec fn steadily(window: Seq<bool>, pressed: bool) -> bool {
    forall|i: int| 0 <= i < window.len() ==> window[i] == pressed
}

/// Whether this poll made the readings all `pressed`.
pub open spec fn becomes(before: Seq<bool>, after: Seq<bool>, pressed: bool) -> bool {
    steadily(after, pressed) && !steadily(before, pressed)
}

/// One if it happened, zero if not.
pub open spec fn count(happened: bool) -> int {
    if happened {
        1
    } else {
        0
    }
}

/// A window is all `pressed` when it equals one that is.
proof fn steadily_is_steady(window: Seq<bool>, pressed: bool)
    ensures
        steadily(window, pressed) <==> window == crate::buttons::steady(window.len(), pressed),
{
    if steadily(window, pressed) {
        assert(window =~= crate::buttons::steady(window.len(), pressed));
    }
}

/// What a poll posts goes to the end of the queue, behind what was there: a long press when the long
/// window becomes all pressed; then a press when the short window becomes all pressed, or a release
/// when it becomes all released; then a reset when the window of the reset button becomes all
/// pressed. Nothing else is posted, and nothing twice. A queue takes no more than seven: what comes
/// after is dropped.
pub proof fn poll_posts_what_changed(
    pwr_pressed: bool,
    rst_pressed: bool,
    buttons: &mut Buttons,
    queue: &mut MessageQueue,
    actions: Actions,
)
    requires
        call_ensures(button_poll, (pwr_pressed, rst_pressed, buttons, queue), actions),
        old(buttons)@.wf(),
    ensures
        ({
            let b = old(buttons)@;
            let a = final(buttons)@;
            let n = old(queue)@.len() as int;
            let long = becomes(b.power_long, a.power_long, true);
            let press = becomes(b.power_short, a.power_short, true);
            let release = becomes(b.power_short, a.power_short, false);
            let reset = becomes(b.reset_short, a.reset_short, true);
            let second = n + count(long);
            let third = second + count(press) + count(release);
            let end = third + count(reset);
            &&& final(queue)@.len() == if end <= 7 {
                end
            } else if n <= 7 {
                7
            } else {
                n
            }
            &&& final(queue)@.take(n) == old(queue)@
            &&& long && n < 7 ==> final(queue)@[n] == Message::PowerButtonLongPress
            &&& press && second < 7 ==> final(queue)@[second] == Message::PowerButtonShortPress
            &&& release && second < 7 ==> final(queue)@[second] == Message::PowerButtonRelease
            &&& reset && third < 7 ==> final(queue)@[third] == Message::ResetButtonShortPress
        }),
{
    let b = old(buttons)@;
    let a = final(buttons)@;
    let n = old(queue)@.len() as int;
    steadily_is_steady(b.power_long, true);
    steadily_is_steady(a.power_long, true);
    steadily_is_steady(b.power_short, true);
    steadily_is_steady(a.power_short, true);
    steadily_is_steady(b.power_short, false);
    steadily_is_steady(a.power_short, false);
    steadily_is_steady(b.reset_short, true);
    steadily_is_steady(a.reset_short, true);
    assert(steadily(a.power_short, true) ==> a.power_short[0]);
    assert(steadily(a.power_short, false) ==> !a.power_short[0]);
    assert(final(queue)@.take(n) =~= old(queue)@);
}

/// When both the keyboard clock and chip select had an edge, the keyboard comes first; a word is
/// posted as it is, and chip select by its level. If there was room nothing is lost, and otherwise
/// that is said.
pub proof fn external_pins_are_posted(
    clock: Option<Option<u16>>,
    chip_select: Option<bool>,
    queue: &mut MessageQueue,
    r: Result<(), QueueFull>,
)
    requires
        call_ensures(exti4_15_interrupt, (clock, chip_select, queue), r),
    ensures
        ({
            let old_len = old(queue)@.len() as int;
            let has_word = clock matches Some(Some(_));
            let needed = count(has_word) + count(chip_select is Some);
            &&& r is Ok <==> needed == 0 || old_len + needed <= 7
            &&& r is Ok ==> {
                &&& final(queue)@.len() == old_len + needed
                &&& final(queue)@.take(old_len) == old(queue)@
                &&& clock matches Some(Some(word)) ==> final(queue)@[old_len] == Message::Ps2Data0(
                    word,
                )
                &&& chip_select matches Some(is_low) ==> {
                    &&& is_low ==> final(queue)@.last() == Message::SpiEnable
                    &&& !is_low ==> final(queue)@.last() == Message::SpiDisable
                }
            }
            &&& r is Err && old_len >= 7 ==> final(queue)@ == old(queue)@
            &&& r is Err && old_len < 7 ==> (clock matches Some(Some(word)) && final(queue)@
                == old(queue)@.push(Message::Ps2Data0(word)))
        }),
{
    let old_len = old(queue)@.len() as int;
    if r is Ok {
        assert(final(queue)@.take(old_len) =~= old(queue)@);
    } else if old_len >= 7 {
        assert(final(queue)@ =~= old(queue)@);
    } else if let Some(Some(word)) = clock {
        assert(final(queue)@ =~= old(queue)@.push(Message::Ps2Data0(word)));
    }
}

/// A clock edge posts the word it completed, as it is.
pub proof fn keyboard_word_is_posted(
    word: Option<u16>,
    queue: &mut MessageQueue,
    r: Result<(), QueueFull>,
)
    requires
        call_ensures(ps2_clock_edge, (word, queue), r),
    ensures
        word is None ==> r is Ok && final(queue)@ == old(queue)@,
        word matches Some(data) ==> {
            &&& r is Ok <==> old(queue)@.len() < 7
            &&& r is Ok ==> final(queue)@ == old(queue)@.push(Message::Ps2Data0(data))
            &&& r is Err ==> final(queue)@ == old(queue)@
        },
{
    match word {
        None => {
            assert(final(queue)@ =~= old(queue)@);
        },
        Some(data) => {
            if old(queue)@.len() < 7 {
                assert(final(queue)@ =~= old(queue)@.push(Message::Ps2Data0(data)));
            } else {
                assert(final(queue)@ =~= old(queue)@);
            }
        },
    }
}

/// An edge of chip select posts which way it went.
pub proof fn chip_select_is_posted(is_low: bool, queue: &mut MessageQueue, r: Result<(), QueueFull>)
    requires
        call_ensures(chip_select_edge, (is_low, queue), r),
    ensures
        r is Ok <==> old(queue)@.len() < 7,
        r is Ok && is_low ==> final(queue)@ == old(queue)@.push(Message::SpiEnable),
        r is Ok && !is_low ==> final(queue)@ == old(queue)@.push(Message::SpiDisable),
        r is Err ==> final(queue)@ == old(queue)@,
{
    if old(queue)@.len() < 7 {
        let message = if is_low {
            Message::SpiEnable
        } else {
            Message::SpiDisable
        };
        assert(final(queue)@ =~= old(queue)@.push(message));
    } else {
        assert(final(queue)@ =~= old(queue)@);
    }
}

/// A byte from the UART is posted as it is, or dropped when the queue is full.
pub proof fn uart_byte_is_posted(received: Option<u8>, queue: &mut MessageQueue)
    requires
        call_ensures(usart1_interrupt, (received, queue), ()),
    ensures
        received is None ==> final(queue)@ == old(queue)@,
        received matches Some(byte) ==> {
            &&& old(queue)@.len() < 7 ==> final(queue)@ == old(queue)@.push(Message::UartByte(byte))
            &&& old(queue)@.len() >= 7 ==> final(queue)@ == old(queue)@
        },
{
    match received {
        None => {
            assert(final(queue)@ =~= old(queue)@);
        },
        Some(byte) => {
            if old(queue)@.len() < 7 {
                assert(final(queue)@ =~= old(queue)@.push(Message::UartByte(byte)));
            } else {
                assert(final(queue)@ =~= old(queue)@);
            }
        },
    }
}

/// The first message posted to an empty queue is the next one taken; otherwise the one that has
/// waited longest is, and the others move up.
pub proof fn queue_is_first_in_first_out(
    message: Message,
    p: &mut MessageQueue,
    q: &mut MessageQueue,
    posted: Result<(), Message>,
    taken: Option<Message>,
)
    requires
        call_ensures(MessageQueue::post, (p, message), posted),
        call_ensures(MessageQueue::take, (q,), taken),
        *final(p) == *old(q),
    ensures
        posted is Ok <==> old(p)@.len() < 7,
        posted matches Err(refused) ==> refused == message && final(p)@ == old(p)@,
        old(p)@.len() == 0 ==> taken == Some(message) && final(q)@.len() == 0,
        old(p)@.len() > 0 ==> taken == Some(old(p)@[0]),
        posted is Ok && old(p)@.len() > 0 ==> final(q)@ == old(p)@.drop_first().push(message),
{
    if posted is Ok && old(p)@.len() > 0 {
        assert(final(q)@ =~= old(p)@.drop_first().push(message));
    }
}

/// Taking a message shortens the queue by that one, from the front; an empty queue has none to give.
pub proof fn message_is_taken_from_the_front(q: &mut MessageQueue, taken: Option<Message>)
    requires
        call_ensures(MessageQueue::take, (q,), taken),
    ensures
        taken is None <==> old(q)@.len() == 0,
        taken is None ==> final(q)@.len() == 0,
        taken matches Some(message) ==> seq![message] + final(q)@ == old(q)@,
{
    if let Some(message) = taken {
        assert(seq![message] + final(q)@ =~= old(q)@);
    }
}

/// A new queue holds nothing, and new buttons have been up for as long as they remember.
pub proof fn new_is_empty(queue: MessageQueue, buttons: Buttons)
    requires
        call_ensures(MessageQueue::new, (), queue),
        call_ensures(Buttons::new, (), buttons),
    ensures
        queue@.len() == 0,
        buttons@.power_short.len() == 2,
        buttons@.power_long.len() == 16,
        buttons@.reset_short.len() == 2,
        steadily(buttons@.power_short, false),
        steadily(buttons@.power_long, false),
        steadily(buttons@.reset_short, false),
{
}

/// Each power state has its own number: off is 0, starting 1, on 2.
pub proof fn power_states_are_numbered(power: DcPowerState, code: u8)
    requires
        call_ensures(DcPowerState::code, (power,), code),
    ensures
        code == 0 <==> power == DcPowerState::Off,
        code == 1 <==> power == DcPowerState::Starting,
        code == 2 <==> power == DcPowerState::On,
{
}

/// The actions are had one by one, as many as there are, each at its position.
pub proof fn actions_are_had_one_by_one(
    actions: &Actions,
    index: usize,
    len: usize,
    action: Option<Action>,
)
    requires
        call_ensures(Actions::len, (actions,), len),
        call_ensures(Actions::get, (actions, index), action),
    ensures
        len == actions@.len(),
        action is Some <==> index < len,
        action matches Some(a) ==> a == actions@[index as int],
{
}

/// The controller starts with the power off, the supply off, the host in reset, LED and buzzer off,
/// both buttons up and nothing to do; it starts the two tasks that run all the time, each once, and
/// does nothing else.
pub proof fn controller_starts_off(version: [u8; 32], start: Startup, action: Action)
    requires
        call_ensures(init, (version,), start),
    ensures
        start.state_dc_power_enabled == DcPowerState::Off,
        !start.led_state,
        start.queue@.len() == 0,
        start.buttons@.wf(),
        steadily(start.buttons@.power_short, false),
        steadily(start.buttons@.power_long, false),
        steadily(start.buttons@.reset_short, false),
        start.register_state@.firmware_version == version@,
        start.register_state@.kb.len() == 0,
        start.register_state@.last_req is None,
        start.register_state@.wf(),
        start.actions@.no_duplicates(),
        start.actions@.contains(action) <==> {
            ||| action == Action::SetSysReset(Level::Low)
            ||| action == Action::SetDcOn(Level::Low)
            ||| action == Action::SetLedPower(Level::Low)
            ||| action == Action::SetBuzzer(Level::Low)
            ||| action == Action::SpawnLedPowerBlink
            ||| action == Action::SpawnButtonPoll
        },
{
    let actions = start.actions@;
    assert(actions[0] == Action::SetSysReset(Level::Low));
    assert(actions[1] == Action::SetDcOn(Level::Low));
    assert(actions[2] == Action::SetLedPower(Level::Low));
    assert(actions[3] == Action::SetBuzzer(Level::Low));
    assert(actions[4] == Action::SpawnLedPowerBlink);
    assert(actions[5] == Action::SpawnButtonPoll);
}

/// The controller starts in a safe order: the host goes into reset before its supply is switched,
/// and all pins are driven before a task runs, the blink task first.
pub proof fn controller_starts_in_order(version: [u8; 32], start: Startup, i: int, j: int)
    requires
        call_ensures(init, (version,), start),
        0 <= i < start.actions@.len(),
        0 <= j < start.actions@.len(),
    ensures
        ({
            let a = start.actions@[i];
            let b = start.actions@[j];
            &&& a is SetSysReset ==> i <= j
            &&& a is SetDcOn && !(b is SetSysReset) ==> i <= j
            &&& a is SpawnLedPowerBlink && b != a && b != Action::SpawnButtonPoll ==> j < i
            &&& a is SpawnButtonPoll ==> j <= i
        }),
{
}

} // verus!
