//! What the host can rely on when it reads registers.

use crate::fifo::KB_CAPACITY;
use crate::protocol::{Reply, Request, MAX_FRAME};
use crate::registers::{kb_report, Registers, KEYS_PER_REPORT};
use vstd::prelude::*;

verus! {

/// The registers after bytes came in from the keyboard.
pub open spec fn with_keys(registers: Registers, keys: Seq<u8>) -> Registers
    decreases keys.len(),
{
    if keys.len() == 0 {
        registers
    } else {
        with_keys(registers, keys.drop_last()).with_key(keys.last())
    }
}

/// Bytes from the keyboard change nothing but the keyboard buffer.
proof fn keys_change_kb_alone(registers: Registers, keys: Seq<u8>)
    ensures
        with_keys(registers, keys) == (Registers { kb: with_keys(registers, keys).kb, ..registers }),
    decreases keys.len(),
{
    if keys.len() > 0 {
        keys_change_kb_alone(registers, keys.drop_last());
    }
}

/// A request that is sent again, because its response was corrupted on the bus, gets the same reply
/// and leaves the registers alone, whatever came in from the keyboard in between: no byte from the
/// keyboard is lost to it. It can be sent again as often as need be.
pub proof fn repeated_request_is_harmless(registers: Registers, req: Request, keys: Seq<u8>)
    requires
        registers.wf(),
    ensures
        ({
            let later = with_keys(registers.after(req), keys);
            &&& later.after(req) == later
            &&& later.reply(req) == registers.reply(req)
        }),
{
    keys_change_kb_alone(registers.after(req), keys);
}

/// Only the last request is remembered.
pub proof fn other_requests_are_forgotten(registers: Registers, req: Request, other: Request)
    requires
        other != req,
    ensures
        !registers.after(other).is_repeat(req),
{
}

/// Every request is answered, with as many bytes as it asked for on success and with none
/// otherwise, and the response fits in a frame.
pub proof fn every_reply_fits(registers: Registers, req: Request)
    requires
        registers.wf(),
    ensures
        ({
            let reply = registers.reply(req);
            &&& reply.wf()
            &&& reply.result is Success ==> reply.data.len() == req.length_or_data
            &&& reply.frame().len() == reply.data.len() + 2
            &&& reply.frame().len() <= MAX_FRAME
        }),
{
}

/// Only a fresh read of the keyboard buffer takes bytes out of it.
pub proof fn other_requests_leave_keys(registers: Registers, req: Request)
    requires
        !registers.reports_keys(req),
    ensures
        registers.after(req).kb == registers.kb,
        registers.after(req).firmware_version == registers.firmware_version,
{
}

/// How many bytes from the keyboard a report of `kb` holds.
pub open spec fn keys_reported(kb: Seq<u8>) -> int {
    if kb.len() <= KEYS_PER_REPORT {
        kb.len() as int
    } else {
        KEYS_PER_REPORT as int
    }
}

/// The bytes from the keyboard that `reply` brings the host, when `kb` was there to report.
pub open spec fn keys_in(reply: Reply, kb: Seq<u8>) -> Seq<u8> {
    reply.data.subrange(1, 1 + keys_reported(kb))
}

/// A fresh read of the keyboard buffer that is long enough for what there is to report says how
/// many bytes were waiting, and hands the oldest of them over in order; the others go on waiting.
pub proof fn read_hands_over_oldest_keys(registers: Registers, req: Request)
    requires
        registers.wf(),
        registers.reports_keys(req),
        keys_reported(registers.kb) < req.length_or_data,
    ensures
        registers.reply(req).data[0] == registers.kb.len(),
        keys_in(registers.reply(req), registers.kb) + registers.after(req).kb == registers.kb,
{
    let kb = registers.kb;
    let n = keys_reported(kb);
    assert(registers.reply(req).data =~= kb_report(kb).take(req.length_or_data as int));
    assert(keys_in(registers.reply(req), kb) =~= kb.take(n));
    assert(registers.after(req).kb =~= kb.skip(n));
    assert(kb.take(n) + kb.skip(n) =~= kb);
}

/// Something that happens to the registers.
pub enum RegisterEvent {
    /// A byte comes in from the keyboard.
    Key(u8),
    /// The host sends a request.
    Asked(Request),
}

/// The registers after one event.
pub open spec fn after_event(registers: Registers, event: RegisterEvent) -> Registers {
    match event {
        RegisterEvent::Key(byte) => registers.with_key(byte),
        RegisterEvent::Asked(req) => registers.after(req),
    }
}

/// The registers after `events`.
pub open spec fn after_events(registers: Registers, events: Seq<RegisterEvent>) -> Registers
    decreases events.len(),
{
    if events.len() == 0 {
        registers
    } else {
        after_event(after_events(registers, events.drop_last()), events.last())
    }
}

/// The bytes from the keyboard that found room, over `events`.
pub open spec fn keys_kept(registers: Registers, events: Seq<RegisterEvent>) -> Seq<u8>
    decreases events.len(),
{
    if events.len() == 0 {
        Seq::empty()
    } else {
        let before = after_events(registers, events.drop_last());
        let earlier = keys_kept(registers, events.drop_last());
        match events.last() {
            RegisterEvent::Key(byte) if before.kb.len() < KB_CAPACITY => earlier.push(byte),
            _ => earlier,
        }
    }
}

/// The bytes from the keyboard that fresh reads handed to the host, over `events`. What a repeated
/// request brings is not counted: the host has asked for it twice.
pub open spec fn keys_read(registers: Registers, events: Seq<RegisterEvent>) -> Seq<u8>
    decreases events.len(),
{
    if events.len() == 0 {
        Seq::empty()
    } else {
        let before = after_events(registers, events.drop_last());
        let earlier = keys_read(registers, events.drop_last());
        match events.last() {
            RegisterEvent::Asked(req) if before.reports_keys(req) => earlier + keys_in(
                before.reply(req),
                before.kb,
            ),
            _ => earlier,
        }
    }
}

/// Whether the event at position `i` is no read of the keyboard buffer that asks for fewer bytes
/// than its report fills. One that asks for all 16 bytes never is.
pub open spec fn asks_for_enough(registers: Registers, events: Seq<RegisterEvent>, i: int) -> bool {
    let before = after_events(registers, events.take(i));
    match events[i] {
        RegisterEvent::Key(_) => true,
        RegisterEvent::Asked(req) => before.reports_keys(req) ==> keys_reported(before.kb)
            < req.length_or_data,
    }
}

/// The registers stay well-formed, whatever happens.
pub proof fn registers_stay_wf(registers: Registers, events: Seq<RegisterEvent>)
    requires
        registers.wf(),
    ensures
        after_events(registers, events).wf(),
    decreases events.len(),
{
    if events.len() > 0 {
        registers_stay_wf(registers, events.drop_last());
    }
}

/// Reading is lossless: over any events, what was waiting at first and what found room since, is
/// what fresh reads handed over and what is still waiting, in the order in which it came in. This
/// holds as long as reads of the keyboard buffer ask for enough bytes, however often requests are
/// repeated and whatever else is asked for in between.
pub proof fn reading_is_lossless(registers: Registers, events: Seq<RegisterEvent>)
    requires
        registers.wf(),
        forall|i: int| 0 <= i < events.len() ==> #[trigger] asks_for_enough(registers, events, i),
    ensures
        registers.kb + keys_kept(registers, events) == keys_read(registers, events) + after_events(
            registers,
            events,
        ).kb,
    decreases events.len(),
{
    let left = registers.kb + keys_kept(registers, events);
    let right = keys_read(registers, events) + after_events(registers, events).kb;
    if events.len() == 0 {
        assert(left =~= right);
    } else {
        let earlier = events.drop_last();
        let before = after_events(registers, earlier);
        assert forall|i: int| 0 <= i < earlier.len() implies #[trigger] asks_for_enough(
            registers,
            earlier,
            i,
        ) by {
            assert(asks_for_enough(registers, events, i));
            assert(earlier.take(i) =~= events.take(i));
        }
        reading_is_lossless(registers, earlier);
        registers_stay_wf(registers, earlier);
        assert(asks_for_enough(registers, events, events.len() - 1));
        assert(events.take(events.len() - 1) =~= earlier);
        match events.last() {
            RegisterEvent::Key(byte) => {
                if before.kb.len() < KB_CAPACITY {
                    assert(left =~= (registers.kb + keys_kept(registers, earlier)).push(byte));
                    assert(right =~= (keys_read(registers, earlier) + before.kb).push(byte));
                }
            },
            RegisterEvent::Asked(req) => {
                if before.reports_keys(req) {
                    read_hands_over_oldest_keys(before, req);
                    let keys = keys_in(before.reply(req), before.kb);
                    assert(left == keys_read(registers, earlier) + before.kb);
                    assert(right =~= keys_read(registers, earlier) + (keys + before.after(req).kb));
                }
            },
        }
    }
}

} // verus!
