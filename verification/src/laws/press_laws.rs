//! What pressing the power button does to the power.

use crate::buttons::{steady, Readings};
use crate::laws::button_laws::{all_are, holding_power_is_one_press, polls_tell_of_steady_buttons};
use crate::message::Message;
use crate::power::DcPowerState;
use vstd::prelude::*;

verus! {

/// The power after the idle task dealt with `messages`.
pub open spec fn power_after(power: DcPowerState, messages: Seq<Message>) -> DcPowerState
    decreases messages.len(),
{
    if messages.len() == 0 {
        power
    } else {
        power_after(power, messages.drop_last()).after(messages.last())
    }
}

/// The power after the first `n` polls, and after the idle task dealt with what they told it.
pub open spec fn power_after_polls(
    power: DcPowerState,
    start: Readings,
    pwr: Seq<bool>,
    rst: Seq<bool>,
    n: int,
) -> DcPowerState
    decreases n,
{
    if n <= 0 {
        power
    } else {
        power_after(
            power_after_polls(power, start, pwr, rst, n - 1),
            start.messages_at(pwr, rst, n - 1),
        )
    }
}

/// A message is among `messages` when it is the last of them or one of the others.
proof fn last_or_earlier(messages: Seq<Message>)
    requires
        messages.len() > 0,
    ensures
        forall|m: Message| #[trigger]
            messages.contains(m) <==> m == messages.last() || messages.drop_last().contains(m),
{
    let earlier = messages.drop_last();
    assert(messages[messages.len() - 1] == messages.last());
    assert forall|m: Message| earlier.contains(m) implies messages.contains(m) by {
        let i = choose|i: int| 0 <= i < earlier.len() && earlier[i] == m;
        assert(messages[i] == m);
    }
    assert forall|m: Message|
        messages.contains(m) && m != messages.last() implies earlier.contains(m) by {
        let i = choose|i: int| 0 <= i < messages.len() && messages[i] == m;
        assert(earlier[i] == m);
    }
}

/// What messages without a release do to a power that is not fully on.
proof fn power_without_release(power: DcPowerState, messages: Seq<Message>)
    requires
        !(power is On),
        !messages.contains(Message::PowerButtonRelease),
    ensures
        power_after(power, messages) == if power is Off && !messages.contains(
            Message::PowerButtonShortPress,
        ) {
            DcPowerState::Off
        } else {
            DcPowerState::Starting
        },
    decreases messages.len(),
{
    if messages.len() > 0 {
        let earlier = messages.drop_last();
        last_or_earlier(messages);
        power_without_release(power, earlier);
    }
}

/// Holding the power button down, with the power off, turns the power on at the second reading; and
/// it stays on, however long the button is held: the long press that follows does not turn it off
/// again.
pub proof fn holding_power_turns_on(start: Readings, pwr: Seq<bool>, rst: Seq<bool>, n: int)
    requires
        start.wf(),
        start.power_short == steady(2, false),
        start.power_long == steady(16, false),
        pwr.len() == rst.len(),
        0 <= n <= pwr.len(),
        all_are(pwr, 0, n, true),
    ensures
        power_after_polls(DcPowerState::Off, start, pwr, rst, n) == if n < 2 {
            DcPowerState::Off
        } else {
            DcPowerState::Starting
        },
    decreases n,
{
    if n > 0 {
        holding_power_turns_on(start, pwr, rst, n - 1);
        holding_power_is_one_press(start, pwr, rst, n - 1);
        power_without_release(
            power_after_polls(DcPowerState::Off, start, pwr, rst, n - 1),
            start.messages_at(pwr, rst, n - 1),
        );
    }
}

/// A power that is starting is fully on once a release was told of, as long as no long press was.
proof fn release_completes_start(messages: Seq<Message>)
    requires
        messages.contains(Message::PowerButtonRelease),
        !messages.contains(Message::PowerButtonLongPress),
    ensures
        power_after(DcPowerState::Starting, messages) is On,
    decreases messages.len(),
{
    let earlier = messages.drop_last();
    last_or_earlier(messages);
    if earlier.contains(Message::PowerButtonRelease) {
        release_completes_start(earlier);
    } else {
        power_without_release(DcPowerState::Starting, earlier);
    }
}

/// Letting go of the power button, after it was held for two readings or more to turn the power on,
/// has the power fully on at the second reading that finds it up.
pub proof fn letting_go_completes_start(start: Readings, pwr: Seq<bool>, rst: Seq<bool>, n: int)
    requires
        start.wf(),
        start.power_short == steady(2, false),
        start.power_long == steady(16, false),
        pwr.len() == rst.len(),
        2 <= n,
        n + 2 <= pwr.len(),
        all_are(pwr, 0, n, true),
        !pwr[n],
        !pwr[n + 1],
    ensures
        power_after_polls(DcPowerState::Off, start, pwr, rst, n) is Starting,
        power_after_polls(DcPowerState::Off, start, pwr, rst, n + 1) is Starting,
        power_after_polls(DcPowerState::Off, start, pwr, rst, n + 2) is On,
{
    let short = start.power_short + pwr;
    let long = start.power_long + pwr;
    holding_power_turns_on(start, pwr, rst, n);
    polls_tell_of_steady_buttons(start, pwr, rst, n);
    polls_tell_of_steady_buttons(start, pwr, rst, n + 1);
    assert(short[n + 1] == pwr[n - 1]);
    assert(short[n + 2] == pwr[n]);
    assert(short[n + 3] == pwr[n + 1]);
    assert(long[n + 17] == pwr[n + 1]);
    power_without_release(DcPowerState::Starting, start.messages_at(pwr, rst, n));
    release_completes_start(start.messages_at(pwr, rst, n + 1));
}

/// A power that is fully on stays on until a long press; and then it is off, unless the button is
/// pressed again.
proof fn power_until_long_press(messages: Seq<Message>)
    ensures
        !messages.contains(Message::PowerButtonLongPress) ==> power_after(
            DcPowerState::On,
            messages,
        ) is On,
        messages.contains(Message::PowerButtonLongPress) && !messages.contains(
            Message::PowerButtonShortPress,
        ) ==> power_after(DcPowerState::On, messages) is Off,
    decreases messages.len(),
{
    if messages.len() > 0 {
        let earlier = messages.drop_last();
        last_or_earlier(messages);
        power_until_long_press(earlier);
    }
}

/// Holding the power button down, with the power fully on, turns the power off at the sixteenth
/// reading and not before; and it stays off, however long the button is held.
pub proof fn holding_power_turns_off(start: Readings, pwr: Seq<bool>, rst: Seq<bool>, n: int)
    requires
        start.wf(),
        start.power_short == steady(2, false),
        start.power_long == steady(16, false),
        pwr.len() == rst.len(),
        0 <= n <= pwr.len(),
        all_are(pwr, 0, n, true),
    ensures
        power_after_polls(DcPowerState::On, start, pwr, rst, n) == if n < 16 {
            DcPowerState::On
        } else {
            DcPowerState::Off
        },
    decreases n,
{
    if n > 0 {
        let messages = start.messages_at(pwr, rst, n - 1);
        holding_power_turns_off(start, pwr, rst, n - 1);
        holding_power_is_one_press(start, pwr, rst, n - 1);
        power_until_long_press(messages);
        power_without_release(DcPowerState::Off, messages);
    }
}

} // verus!
