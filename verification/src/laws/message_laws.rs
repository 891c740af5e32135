//! What a message does, and what it does not do, call by call.

use crate::action::{Action, Level};
use crate::idle::{handle_message, Outcome};
use crate::message::Message;
use crate::power::DcPowerState;
use crate::protocol::{crc8, Frame, Request, Response, ResponseResult};
use crate::registers::{process_command, RegisterState};
use vstd::prelude::*;

verus! {

/// The byte in a good word from the keyboard goes to the end of the keyboard buffer as it is, unless
/// the buffer holds sixteen; then it is dropped, and that is said. Nothing else happens.
pub proof fn keyboard_word_is_kept(
    word: u16,
    byte: u8,
    power: &mut DcPowerState,
    s: &mut RegisterState,
    outcome: Outcome,
)
    requires
        call_ensures(handle_message, (Message::Ps2Data0(word), Some(byte), power, s), outcome),
        old(s)@.wf(),
    ensures
        old(s)@.kb.len() < 16 ==> {
            &&& final(s)@.kb.len() == old(s)@.kb.len() + 1
            &&& final(s)@.kb.last() == byte
            &&& final(s)@.kb.drop_last() == old(s)@.kb
            &&& !outcome.kb_overflow
        },
        old(s)@.kb.len() == 16 ==> final(s)@.kb == old(s)@.kb && outcome.kb_overflow,
        final(s)@.firmware_version == old(s)@.firmware_version,
        final(s)@.scratch == old(s)@.scratch,
        final(s)@.last_req == old(s)@.last_req,
        *final(power) == *old(power),
        outcome.actions@.len() == 0,
        outcome.reply is None,
{
    if old(s)@.kb.len() < 16 {
        assert(final(s)@.kb.drop_last() =~= old(s)@.kb);
    }
}

/// Only good words from the keyboard and requests from the host change the registers: a bad word, a
/// word from the mouse, a button, chip select and the UART leave them as they are.
pub proof fn other_messages_leave_registers(
    message: Message,
    checked: Option<u8>,
    power: &mut DcPowerState,
    s: &mut RegisterState,
    outcome: Outcome,
)
    requires
        call_ensures(handle_message, (message, checked, power, s), outcome),
        old(s)@.wf(),
        !(message is SpiRequest),
        !(message is Ps2Data0 && checked is Some),
    ensures
        final(s)@ == old(s)@,
        outcome.reply is None,
        !outcome.kb_overflow,
{
}

/// Every request is answered, whatever the power: with the code of the result that
/// `process_command` comes to, its data, and their CRC-8; and the registers become what it makes of
/// them. Nothing else happens.
pub proof fn every_request_is_answered(
    req: Request,
    checked: Option<u8>,
    power: &mut DcPowerState,
    s: &mut RegisterState,
    outcome: Outcome,
    t: &mut RegisterState,
    response: Response,
    result: ResponseResult,
    data: &[u8],
    bytes: &[u8],
)
    requires
        call_ensures(handle_message, (Message::SpiRequest(req), checked, power, s), outcome),
        call_ensures(process_command, (req, t), response),
        call_ensures(Response::result, (&response,), result),
        call_ensures(Response::data, (&response,), data),
        outcome.reply matches Some(frame) ==> call_ensures(Frame::as_slice, (&frame,), bytes),
        *old(s) == *old(t),
        old(s)@.wf(),
    ensures
        outcome.reply is Some,
        bytes@.len() == data@.len() + 2,
        bytes@[0] == 0xA0 <==> result == ResponseResult::Success,
        bytes@[0] == 0xA3 <==> result == ResponseResult::BadRegister,
        bytes@[0] == 0xA4 <==> result == ResponseResult::BadLength,
        bytes@.subrange(1, bytes@.len() - 1) == data@,
        bytes@.last() == crc8(bytes@.drop_last()),
        final(s)@ == final(t)@,
        *final(power) == *old(power),
        outcome.actions@.len() == 0,
        !outcome.kb_overflow,
{
    assert(bytes@ == response@.frame());
    assert(bytes@.drop_last() =~= seq![response@.result.code()] + response@.data);
    assert(bytes@.subrange(1, bytes@.len() - 1) =~= data@);
}

/// The power changes on three messages, each in one state, and on no other.
pub proof fn three_messages_change_the_power(
    message: Message,
    checked: Option<u8>,
    power: &mut DcPowerState,
    s: &mut RegisterState,
    outcome: Outcome,
)
    requires
        call_ensures(handle_message, (message, checked, power, s), outcome),
        old(s)@.wf(),
    ensures
        *final(power) == DcPowerState::Starting <==> {
            ||| *old(power) == DcPowerState::Off && message == Message::PowerButtonShortPress
            ||| *old(power) == DcPowerState::Starting && message != Message::PowerButtonRelease
        },
        *final(power) == DcPowerState::On <==> {
            ||| *old(power) == DcPowerState::Starting && message == Message::PowerButtonRelease
            ||| *old(power) == DcPowerState::On && message != Message::PowerButtonLongPress
        },
        *final(power) == DcPowerState::Off <==> {
            ||| *old(power) == DcPowerState::On && message == Message::PowerButtonLongPress
            ||| *old(power) == DcPowerState::Off && message != Message::PowerButtonShortPress
        },
{
}

/// Whether this message turns the power on.
pub open spec fn turns_on(power: DcPowerState, message: Message) -> bool {
    power == DcPowerState::Off && message == Message::PowerButtonShortPress
}

/// Whether this message turns the power off.
pub open spec fn turns_off(power: DcPowerState, message: Message) -> bool {
    power == DcPowerState::On && message == Message::PowerButtonLongPress
}

/// Whether this message resets the host.
pub open spec fn resets(power: DcPowerState, message: Message) -> bool {
    power == DcPowerState::On && message == Message::ResetButtonShortPress
}

/// What is done to the hardware is done for a cause: the supply is switched on when the power is
/// turned on, and off when it is turned off; the host is put in reset then and by the reset button,
/// and by nothing else; the SPI peripheral is started by chip select with the power on, stopped by
/// chip select and when the power is turned off, and reset with the host; the LED blinks again once
/// the power is off; and a reset that the power outlasts ends 250 milliseconds later.
pub proof fn every_action_has_its_cause(
    message: Message,
    checked: Option<u8>,
    power: &mut DcPowerState,
    s: &mut RegisterState,
    outcome: Outcome,
    action: Action,
)
    requires
        call_ensures(handle_message, (message, checked, power, s), outcome),
        old(s)@.wf(),
    ensures
        outcome.actions@.contains(action) <==> match action {
            Action::SetDcOn(Level::High) => turns_on(*old(power), message),
            Action::SetDcOn(Level::Low) => turns_off(*old(power), message),
            Action::SetSysReset(Level::Low) => turns_on(*old(power), message) || turns_off(
                *old(power),
                message,
            ) || resets(*old(power), message),
            Action::SetSysReset(Level::High) => false,
            Action::StartSpi => message == Message::SpiEnable && *old(power) != DcPowerState::Off,
            Action::StopSpi => message == Message::SpiDisable || turns_off(*old(power), message),
            Action::ResetSpi => resets(*old(power), message),
            Action::SpawnLedPowerBlink => turns_off(*old(power), message),
            Action::ScheduleExitReset(ms) => ms == 250 && (turns_on(*old(power), message) || resets(
                *old(power),
                message,
            )),
            _ => false,
        },
{
    let actions = outcome.actions@;
    if turns_off(*old(power), message) {
        assert(actions[0] == Action::StopSpi);
        assert(actions[1] == Action::SetSysReset(Level::Low));
        assert(actions[2] == Action::SetDcOn(Level::Low));
        assert(actions[3] == Action::SpawnLedPowerBlink);
    } else if turns_on(*old(power), message) {
        assert(actions[0] == Action::SetSysReset(Level::Low));
        assert(actions[1] == Action::SetDcOn(Level::High));
        assert(actions[2] == Action::ScheduleExitReset(250));
    } else if resets(*old(power), message) {
        assert(actions[0] == Action::SetSysReset(Level::Low));
        assert(actions[1] == Action::ResetSpi);
        assert(actions[2] == Action::ScheduleExitReset(250));
    } else if message == Message::SpiDisable {
        assert(actions[0] == Action::StopSpi);
    } else if message == Message::SpiEnable && *old(power) != DcPowerState::Off {
        assert(actions[0] == Action::StartSpi);
    }
}

/// Every action is performed once, and in a safe order: the SPI peripheral is stopped before the
/// host is put in reset, and reset after that; the supply is switched with the host in reset; the
/// LED blinks again, and the end of a reset is arranged for, when all else is done.
pub proof fn actions_come_in_a_safe_order(
    message: Message,
    checked: Option<u8>,
    power: &mut DcPowerState,
    s: &mut RegisterState,
    outcome: Outcome,
    i: int,
    j: int,
)
    requires
        call_ensures(handle_message, (message, checked, power, s), outcome),
        old(s)@.wf(),
        0 <= i < outcome.actions@.len(),
        0 <= j < outcome.actions@.len(),
    ensures
        ({
            let a = outcome.actions@[i];
            let b = outcome.actions@[j];
            let reset = Action::SetSysReset(Level::Low);
            &&& a == b ==> i == j
            &&& a == Action::StopSpi && b == reset ==> i < j
            &&& a == reset && b == Action::ResetSpi ==> i < j
            &&& a == reset && b is SetDcOn ==> i < j
            &&& a == Action::SpawnLedPowerBlink ==> j <= i
            &&& a is ScheduleExitReset ==> j <= i
        }),
{
}

/// Words from the PS/2 ports, requests and bytes from the UART never touch the hardware, nor the
/// power: typing does not reset the host.
pub proof fn data_does_not_touch_the_hardware(
    message: Message,
    checked: Option<u8>,
    power: &mut DcPowerState,
    s: &mut RegisterState,
    outcome: Outcome,
)
    requires
        call_ensures(handle_message, (message, checked, power, s), outcome),
        old(s)@.wf(),
        message is Ps2Data0 || message is Ps2Data1 || message is SpiRequest || message is UartByte,
    ensures
        outcome.actions@.len() == 0,
        *final(power) == *old(power),
{
}

} // verus!
