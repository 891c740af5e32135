//! What the interrupts leave for the idle task.

use crate::message::{offered, room, Message, MessageQueue, QUEUE_CAPACITY};
use vstd::prelude::*;

verus! {

/// The queue had no room for a message that must not be lost.
#[derive(Debug, Clone, Copy, PartialEq, Eq, Structural)]
pub struct QueueFull;

/// The messages that a clock edge of PS/2 port 0 gives rise to.
pub open spec fn ps2_messages(word: Option<u16>) -> Seq<Message> {
    match word {
        Some(data) => seq![Message::Ps2Data0(data)],
        None => seq![],
    }
}

/// Deals with a clock edge of PS/2 port 0, given the word that it completed, if any.
pub fn ps2_clock_edge(word: Option<u16>, queue: &mut MessageQueue) -> (r: Result<(), QueueFull>)
    ensures
        final(queue)@ == offered(old(queue)@, ps2_messages(word)),
        r is Err <==> word is Some && old(queue)@.len() >= QUEUE_CAPACITY,
{
    match word {
        Some(data) => {
            // Don't dump in the ISR - we're busy. Add it to the queue instead.
            match queue.post(Message::Ps2Data0(data)) {
                Ok(_) => Ok(()),
                Err(_) => Err(QueueFull),
            }
        },
        None => {
            assert(queue@ =~= offered(old(queue)@, ps2_messages(word)));
            Ok(())
        },
    }
}

/// The message that an edge of the SPI chip select gives rise to.
pub open spec fn chip_select_message(is_low: bool) -> Message {
    if is_low {
        Message::SpiEnable
    } else {
        Message::SpiDisable
    }
}

/// Deals with an edge of the SPI chip select, given the level that it is at now.
pub fn chip_select_edge(is_low: bool, queue: &mut MessageQueue) -> (r: Result<(), QueueFull>)
    ensures
        final(queue)@ == offered(old(queue)@, seq![chip_select_message(is_low)]),
        r is Err <==> old(queue)@.len() >= QUEUE_CAPACITY,
{
    let message = if is_low {
        // If incoming Chip Select is low, tell the main thread to turn on the SPI engine
        Message::SpiEnable
    } else {
        // If incoming Chip Select is high, tell the main thread to turn off the SPI engine
        Message::SpiDisable
    };
    match queue.post(message) {
        Ok(_) => Ok(()),
        Err(_) => Err(QueueFull),
    }
}

/// The messages that an interrupt of the external pins gives rise to, in order: `clock` tells of a
/// clock edge of PS/2 port 0 and the word that it completed, if any; `chip_select` of an edge of
/// the SPI chip select and whether it is low now.
pub open spec fn exti_messages(clock: Option<Option<u16>>, chip_select: Option<bool>) -> Seq<
    Message,
> {
    let from_clock = match clock {
        Some(word) => ps2_messages(word),
        None => seq![],
    };
    let from_chip_select = match chip_select {
        Some(is_low) => seq![chip_select_message(is_low)],
        None => seq![],
    };
    from_clock + from_chip_select
}

/// This is the external GPIO interrupt task.
///
/// It handles PS/2 clock edges, and SPI chip select edges: `clock` is the word that a clock edge
/// completed, if there was an edge and it completed one; `chip_select` is whether chip select is
/// low, if there was an edge of it.
pub fn exti4_15_interrupt(
    clock: Option<Option<u16>>,
    chip_select: Option<bool>,
    queue: &mut MessageQueue,
) -> (r: Result<(), QueueFull>)
    ensures
        final(queue)@ == offered(old(queue)@, exti_messages(clock, chip_select)),
        r is Err <==> exti_messages(clock, chip_select).len() > room(old(queue)@),
{
    let ghost waiting = old(queue)@;
    if let Some(word) = clock {
        if ps2_clock_edge(word, queue).is_err() {
            assert(queue@ =~= offered(waiting, exti_messages(clock, chip_select)));
            return Err(QueueFull);
        }
    }
    if let Some(is_low) = chip_select {
        if chip_select_edge(is_low, queue).is_err() {
            assert(queue@ =~= offered(waiting, exti_messages(clock, chip_select)));
            return Err(QueueFull);
        }
    }
    assert(queue@ =~= offered(waiting, exti_messages(clock, chip_select)));
    Ok(())
}

/// The messages that an interrupt of the UART gives rise to.
pub open spec fn uart_messages(received: Option<u8>) -> Seq<Message> {
    match received {
        Some(byte) => seq![Message::UartByte(byte)],
        None => seq![],
    }
}

/// Deals with an interrupt of the UART, given the byte that was received, if any.
///
/// A byte that finds the queue full is dropped.
pub fn usart1_interrupt(received: Option<u8>, queue: &mut MessageQueue)
    ensures
        final(queue)@ == offered(old(queue)@, uart_messages(received)),
{
    match received {
        Some(byte) => {
            let _ = queue.post(Message::UartByte(byte));
        },
        None => {
            assert(queue@ =~= offered(old(queue)@, uart_messages(received)));
        },
    }
}

} // verus!
