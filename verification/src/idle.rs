//! What the idle task makes of a message, and of the bytes that came in over SPI.

use crate::action::{Action, Actions, Level};
use crate::fifo::KB_CAPACITY;
use crate::interrupts::QueueFull;
use crate::message::{offered, Message, MessageQueue, QUEUE_CAPACITY};
use crate::power::{DcPowerState, RESET_DURATION_MS};
use crate::protocol::{request_error, Frame, ProtocolError, Request};
use crate::registers::{process_command, RegisterState, Registers};
use vstd::prelude::*;

verus! {

/// What a message leads to.
pub struct Outcome {
    /// What to do to the hardware, in this order.
    pub actions: Actions,
    /// What to send to the host.
    pub reply: Option<Frame>,
    /// Whether a byte from the keyboard found no room.
    pub kb_overflow: bool,
}

/// The registers after `message`, given the byte in its PS/2 word, if it has a good one.
pub open spec fn registers_after(
    registers: Registers,
    message: Message,
    checked: Option<u8>,
) -> Registers {
    match (message, checked) {
        (Message::Ps2Data0(_), Some(byte)) => registers.with_key(byte),
        (Message::SpiRequest(req), _) => registers.after(req),
        _ => registers,
    }
}

/// The frame that `message` has us send to the host.
pub open spec fn frame_for(registers: Registers, message: Message) -> Option<Seq<u8>> {
    match message {
        Message::SpiRequest(req) => Some(registers.reply(req).frame()),
        _ => None,
    }
}

/// Deals with one message.
///
/// `checked` is the byte in the message's PS/2 word, when the message has one and its framing and
/// parity are good. The new power state is in place before the first of the actions.
pub fn handle_message(
    message: Message,
    checked: Option<u8>,
    power: &mut DcPowerState,
    register_state: &mut RegisterState,
) -> (outcome: Outcome)
    requires
        old(register_state)@.wf(),
    ensures
        *final(power) == old(power).after(message),
        outcome.actions@ == old(power).actions(message),
        final(register_state)@ == registers_after(old(register_state)@, message, checked),
        final(register_state)@.wf(),
        match outcome.reply {
            Some(frame) => frame_for(old(register_state)@, message) == Some(frame@),
            None => frame_for(old(register_state)@, message) is None,
        },
        outcome.kb_overflow <==> message is Ps2Data0 && checked is Some && old(
            register_state,
        )@.kb.len() == KB_CAPACITY,
{
    let mut actions = Actions::none();
    let mut reply: Option<Frame> = None;
    let mut kb_overflow = false;
    match message {
        Message::Ps2Data0(_) => {
            if let Some(byte) = checked {
                kb_overflow = !register_state.add_key(byte);
            }
        },
        Message::Ps2Data1(_) => {},
        Message::PowerButtonLongPress => {
            if *power == DcPowerState::On {
                *power = DcPowerState::Off;
                // Stop any SPI stuff that's currently going on (the host is about to be powered off)
                // Put the host into reset
                // Shut off the 5V power
                // Start LED blinking again
                actions = actions.and(Action::StopSpi).and(Action::SetSysReset(Level::Low)).and(
                    Action::SetDcOn(Level::Low),
                ).and(Action::SpawnLedPowerBlink);
            }
        },
        Message::PowerButtonShortPress => {
            if *power == DcPowerState::Off {
                // Button pressed - power on system.
                // Step 1 - Note our new power state
                *power = DcPowerState::Starting;
                // Step 2 - Hold reset line (active) low
                // Step 3 - Turn on PSU
                // Step 4 - Leave it in reset for a while.
                actions = actions.and(Action::SetSysReset(Level::Low)).and(
                    Action::SetDcOn(Level::High),
                ).and(Action::ScheduleExitReset(RESET_DURATION_MS));
            }
        },
        Message::PowerButtonRelease => {
            if *power == DcPowerState::Starting {
                // Button released after power on. Change the power
                // state machine to "On". We were in 'Starting' to ignore
                // any further button events until the button had been
                // released.
                *power = DcPowerState::On;
            }
        },
        Message::ResetButtonShortPress => {
            // Is the board powered on? Don't do a reset if it's powered off.
            if *power == DcPowerState::On {
                actions = actions.and(Action::SetSysReset(Level::Low)).and(Action::ResetSpi).and(
                    Action::ScheduleExitReset(RESET_DURATION_MS),
                );
            }
        },
        Message::SpiEnable => {
            // When off, ignore it: it'll be the CS line being pulled low when the host is powered off
            if *power != DcPowerState::Off {
                actions = actions.and(Action::StartSpi);
            }
        },
        Message::SpiDisable => {
            // Turn off the SPI peripheral. Don't need to check power state for this.
            actions = actions.and(Action::StopSpi);
        },
        Message::SpiRequest(req) => {
            let response = process_command(req, register_state);
            reply = Some(response.to_frame());
        },
        Message::UartByte(_) => {},
    }
    assert(actions@ =~= old(power).actions(message));
    Outcome { actions, reply, kb_overflow }
}

/// What to make of the bytes that came in over SPI.
#[derive(Debug, Clone, Copy, PartialEq, Eq, Structural)]
pub struct Reception {
    /// The request that they are.
    pub request: Option<Request>,
    /// Whether they are done with, so that reception can start over.
    pub mark_done: bool,
}

/// Looks at the bytes that the SPI peripheral has received so far, if it has any.
///
/// With too few of them, wait for more. A request is handed on; anything else is thrown away.
pub fn receive_request(received: Option<&[u8]>) -> (r: Reception)
    ensures
        match received {
            None => r.request is None && !r.mark_done,
            Some(data) => match request_error(data@) {
                None => r.mark_done && (r.request matches Some(request) && request.bytes()
                    == data@.take(4)),
                Some(error) => r.request is None && r.mark_done == (error
                    != ProtocolError::BadLength),
            },
        },
        received matches Some(data) ==> (r.request matches Some(request) ==> request.register
            == data@[1] && request.length_or_data == data@[2] && request.crc == data@[3]),
{
    let mut request: Option<Request> = None;
    let mut mark_done = false;
    if let Some(data) = received {
        match Request::from_bytes(data) {
            Ok(inner_req) => {
                mark_done = true;
                request = Some(inner_req);
            },
            Err(ProtocolError::BadLength) => {
                // Need more data
            },
            Err(_) => {
                mark_done = true;
            },
        }
    }
    Reception { request, mark_done }
}

/// The messages that the bytes from SPI give rise to.
pub open spec fn request_messages(request: Option<Request>) -> Seq<Message> {
    match request {
        Some(req) => seq![Message::SpiRequest(req)],
        None => seq![],
    }
}

/// If we got a valid request, queues it so we can look at it next time around.
pub fn queue_request(request: Option<Request>, queue: &mut MessageQueue) -> (r: Result<
    (),
    QueueFull,
>)
    ensures
        final(queue)@ == offered(old(queue)@, request_messages(request)),
        r is Err <==> request is Some && old(queue)@.len() >= QUEUE_CAPACITY,
{
    match request {
        Some(req) => {
            match queue.post(Message::SpiRequest(req)) {
                Ok(_) => Ok(()),
                Err(_) => Err(QueueFull),
            }
        },
        None => {
            assert(queue@ =~= offered(old(queue)@, request_messages(request)));
            Ok(())
        },
    }
}

} // verus!
