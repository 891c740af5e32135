//! When the buttons are taken to be pressed, held and released.

use crate::buttons::{edge, shifted, steady, Edge, Readings, DEBOUNCE_POLL_INTERVAL_MS};
use crate::led::LED_PERIOD_MS;
use crate::message::{offered, room, Message};
use vstd::prelude::*;

verus! {

impl Readings {
    /// The sizes of the windows that the buttons are judged by.
    pub open spec fn wf(self) -> bool {
        &&& self.power_short.len() == 2
        &&& self.power_long.len() == 16
        &&& self.reset_short.len() == 2
    }

    /// The readings after polls that found the power button as in `pwr` and the reset button as in
    /// `rst`.
    pub open spec fn polled_all(self, pwr: Seq<bool>, rst: Seq<bool>) -> Readings
        decreases pwr.len(),
    {
        if pwr.len() == 0 {
            self
        } else {
            self.polled_all(pwr.drop_last(), rst.drop_last()).polled(pwr.last(), rst.last())
        }
    }

    /// The messages of the poll at position `k`.
    pub open spec fn messages_at(self, pwr: Seq<bool>, rst: Seq<bool>, k: int) -> Seq<Message> {
        self.polled_all(pwr.take(k), rst.take(k)).messages(pwr[k], rst[k])
    }
}

/// A window of readings after further readings `taken`: the latest ones of both together.
pub open spec fn window(start: Seq<bool>, taken: Seq<bool>) -> Seq<bool> {
    (start + taken).skip(taken.len() as int)
}

/// The windows hold the latest readings.
pub proof fn windows_hold_latest_readings(start: Readings, pwr: Seq<bool>, rst: Seq<bool>)
    requires
        start.wf(),
        pwr.len() == rst.len(),
    ensures
        start.polled_all(pwr, rst) == (Readings {
            power_short: window(start.power_short, pwr),
            power_long: window(start.power_long, pwr),
            reset_short: window(start.reset_short, rst),
        }),
        start.polled_all(pwr, rst).wf(),
    decreases pwr.len(),
{
    let after = start.polled_all(pwr, rst);
    if pwr.len() == 0 {
        assert(start.power_short + pwr =~= start.power_short);
        assert(start.power_long + pwr =~= start.power_long);
        assert(start.reset_short + rst =~= start.reset_short);
    } else {
        windows_hold_latest_readings(start, pwr.drop_last(), rst.drop_last());
    }
    assert(after.power_short =~= window(start.power_short, pwr));
    assert(after.power_long =~= window(start.power_long, pwr));
    assert(after.reset_short =~= window(start.reset_short, rst));
}

/// Which messages a poll gives rise to.
proof fn messages_by_edge(before: Readings, pwr_pressed: bool, rst_pressed: bool)
    ensures
        ({
            let after = before.polled(pwr_pressed, rst_pressed);
            let messages = before.messages(pwr_pressed, rst_pressed);
            let short = edge(before.power_short, after.power_short);
            &&& messages.contains(Message::PowerButtonLongPress) <==> edge(
                before.power_long,
                after.power_long,
            ) == Some(Edge::Rising)
            &&& messages.contains(Message::PowerButtonShortPress) <==> short == Some(Edge::Rising)
            &&& messages.contains(Message::PowerButtonRelease) <==> short == Some(Edge::Falling)
            &&& messages.contains(Message::ResetButtonShortPress) <==> edge(
                before.reset_short,
                after.reset_short,
            ) == Some(Edge::Rising)
        }),
{
    let after = before.polled(pwr_pressed, rst_pressed);
    let messages = before.messages(pwr_pressed, rst_pressed);
    let long = before.long_press(after);
    let short = before.short_press(after);
    let reset = before.reset_press(after);
    if long.len() == 1 {
        assert(messages[0] == Message::PowerButtonLongPress);
    }
    if short.len() == 1 {
        assert(messages[long.len() as int] == short[0]);
    }
    if reset.len() == 1 {
        assert(messages[long.len() as int + short.len() as int] == Message::ResetButtonShortPress);
    }
}

/// All of `readings` from position `from` up to `to` are `pressed`.
pub open spec fn all_are(readings: Seq<bool>, from: int, to: int, pressed: bool) -> bool {
    forall|i: int| from <= i < to ==> readings[i] == pressed
}

/// The edge that the reading at position `k` makes, in a window of `n`.
proof fn edge_of_window(start: Seq<bool>, taken: Seq<bool>, k: int)
    requires
        start.len() > 0,
        0 <= k < taken.len(),
    ensures
        ({
            let all = start + taken;
            let n = start.len() as int;
            let e = edge(
                window(start, taken.take(k)),
                shifted(window(start, taken.take(k)), taken[k]),
            );
            &&& e == Some(Edge::Rising) <==> !all[k] && all_are(all, k + 1, k + 1 + n, true)
            &&& e == Some(Edge::Falling) <==> all[k] && all_are(all, k + 1, k + 1 + n, false)
        }),
{
    let all = start + taken;
    let n = start.len() as int;
    let before = window(start, taken.take(k));
    let after = shifted(before, taken[k]);
    assert(before =~= all.subrange(k, k + n));
    assert(after =~= all.subrange(k + 1, k + 1 + n));
    assert forall|pressed: bool|
        after == steady(n as nat, pressed) <==> #[trigger] all_are(
            all,
            k + 1,
            k + 1 + n,
            pressed,
        ) by {
        if all_are(all, k + 1, k + 1 + n, pressed) {
            assert(after =~= steady(n as nat, pressed));
        }
        if after == steady(n as nat, pressed) {
            assert forall|i: int| k + 1 <= i < k + 1 + n implies all[i] == pressed by {
                assert(after[i - k - 1] == pressed);
            }
        }
    }
    assert forall|pressed: bool| #[trigger]
        all_are(all, k + 1, k + 1 + n, pressed) implies (before != after <==> all[k]
        != pressed) by {
        assert(before[0] == all[k]);
        assert(after[0] == all[k + 1]);
        if all[k] == pressed {
            assert(before =~= after);
        }
    }
    assert(all_are(all, k + 1, k + 1 + n, true) ==> all[k + 1]);
    assert(all_are(all, k + 1, k + 1 + n, false) ==> !all[k + 1]);
}

/// A poll tells of a press of the power button, or of its release, when the last two readings found
/// it so and the one before did not; of a long press when the last sixteen readings found it down
/// and the one before did not; of a press of the reset button when the last two readings found it
/// down and the one before did not.
pub proof fn polls_tell_of_steady_buttons(start: Readings, pwr: Seq<bool>, rst: Seq<bool>, k: int)
    requires
        start.wf(),
        pwr.len() == rst.len(),
        0 <= k < pwr.len(),
    ensures
        ({
            let messages = start.messages_at(pwr, rst, k);
            let short = start.power_short + pwr;
            let long = start.power_long + pwr;
            let reset = start.reset_short + rst;
            &&& messages.contains(Message::PowerButtonShortPress) <==> !short[k] && all_are(
                short,
                k + 1,
                k + 3,
                true,
            )
            &&& messages.contains(Message::PowerButtonRelease) <==> short[k] && all_are(
                short,
                k + 1,
                k + 3,
                false,
            )
            &&& messages.contains(Message::PowerButtonLongPress) <==> !long[k] && all_are(
                long,
                k + 1,
                k + 17,
                true,
            )
            &&& messages.contains(Message::ResetButtonShortPress) <==> !reset[k] && all_are(
                reset,
                k + 1,
                k + 3,
                true,
            )
        }),
{
    let before = start.polled_all(pwr.take(k), rst.take(k));
    windows_hold_latest_readings(start, pwr.take(k), rst.take(k));
    messages_by_edge(before, pwr[k], rst[k]);
    edge_of_window(start.power_short, pwr, k);
    edge_of_window(start.power_long, pwr, k);
    edge_of_window(start.reset_short, rst, k);
}

/// Holding the power button down, after it was up, is one press, told of at the second reading; and
/// one long press, told of at the sixteenth. Nothing else is told of it, however long it is held.
pub proof fn holding_power_is_one_press(start: Readings, pwr: Seq<bool>, rst: Seq<bool>, k: int)
    requires
        start.wf(),
        start.power_short == steady(2, false),
        start.power_long == steady(16, false),
        pwr.len() == rst.len(),
        0 <= k < pwr.len(),
        all_are(pwr, 0, k + 1, true),
    ensures
        start.messages_at(pwr, rst, k).contains(Message::PowerButtonShortPress) <==> k + 1 == 2,
        start.messages_at(pwr, rst, k).contains(Message::PowerButtonLongPress) <==> k + 1 == 16,
        !start.messages_at(pwr, rst, k).contains(Message::PowerButtonRelease),
{
    polls_tell_of_steady_buttons(start, pwr, rst, k);
    let short = start.power_short + pwr;
    let long = start.power_long + pwr;
    assert(short[k + 2] == pwr[k]);
    if k == 0 {
        assert(!short[k + 1]);
    } else if k > 1 {
        assert(short[k] == pwr[k - 2]);
    }
    if k < 15 {
        assert(!long[15]);
    } else if k > 15 {
        assert(long[k] == pwr[k - 16]);
    }
}

/// From the release of the power button to the next long press the blink task has come to its end:
/// more time passes than one of its periods.
pub proof fn long_press_comes_after_blink_ended(
    start: Readings,
    pwr: Seq<bool>,
    rst: Seq<bool>,
    j: int,
    k: int,
)
    requires
        start.wf(),
        pwr.len() == rst.len(),
        0 <= j < k < pwr.len(),
        start.messages_at(pwr, rst, j).contains(Message::PowerButtonRelease),
        start.messages_at(pwr, rst, k).contains(Message::PowerButtonLongPress),
    ensures
        k - j >= 16,
        (k - j) * DEBOUNCE_POLL_INTERVAL_MS > LED_PERIOD_MS,
{
    polls_tell_of_steady_buttons(start, pwr, rst, j);
    polls_tell_of_steady_buttons(start, pwr, rst, k);
    let short = start.power_short + pwr;
    let long = start.power_long + pwr;
    assert(!short[j + 2]);
    assert(short[j + 2] == pwr[j]);
    assert(long[j + 16] == pwr[j]);
}

/// Messages line up in the order in which they are posted: posting some and then others is the same
/// as posting all of them.
pub proof fn messages_line_up(waiting: Seq<Message>, first: Seq<Message>, others: Seq<Message>)
    ensures
        offered(offered(waiting, first), others) == offered(waiting, first + others),
        first.len() + others.len() <= room(waiting) ==> offered(waiting, first + others) == waiting
            + first + others,
{
    let all = first + others;
    let n = room(waiting) as int;
    if all.len() <= n {
        assert(waiting + all =~= waiting + first + others);
    } else if first.len() <= n {
        assert(all.take(n) =~= first + others.take(n - first.len()));
        assert(offered(offered(waiting, first), others) =~= offered(waiting, all));
    } else {
        assert(all.take(n) =~= first.take(n));
        assert(others.take(0) =~= Seq::<Message>::empty());
        assert(offered(offered(waiting, first), others) =~= offered(waiting, all));
    }
}

} // verus!
