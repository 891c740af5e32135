//! How requests are answered, call by call.

use crate::protocol::{Request, RequestType, Response, ResponseResult};
use crate::registers::{process_command, RegisterState, Registers};
use vstd::prelude::*;

verus! {

/// Whether `req` reads `register`, in either of the two ways of reading.
pub open spec fn reads(req: Request, register: u8) -> bool {
    &&& req.request_type == RequestType::Read || req.request_type == RequestType::ReadAlt
    &&& req.register == register
}

/// Whether `rsp` tells of a failure, and says nothing else.
pub open spec fn fails(rsp: Response, result: ResponseResult) -> bool {
    rsp@.result == result && rsp@.data.len() == 0
}

/// The two ways of reading get the same answer, and leave the same bytes to read.
pub proof fn both_ways_of_reading_are_alike(
    a: Request,
    b: Request,
    s: &mut RegisterState,
    t: &mut RegisterState,
    rsp_a: Response,
    rsp_b: Response,
)
    requires
        call_ensures(process_command, (a, s), rsp_a),
        call_ensures(process_command, (b, t), rsp_b),
        *old(s) == *old(t),
        old(s)@.wf(),
        reads(a, a.register),
        reads(b, a.register),
        a.length_or_data == b.length_or_data,
        old(s)@.last_req != Some(a),
        old(s)@.last_req != Some(b),
    ensures
        rsp_a@ == rsp_b@,
        final(s)@.kb == final(t)@.kb,
        final(s)@.scratch == final(t)@.scratch,
        final(s)@.firmware_version == final(t)@.firmware_version,
        final(s)@.last_req is Some <==> final(t)@.last_req is Some,
{
}

/// A read of the protocol version is answered with 0, 1, 1, when it asks for three bytes.
pub proof fn protocol_version_is_read(req: Request, s: &mut RegisterState, rsp: Response)
    requires
        call_ensures(process_command, (req, s), rsp),
        old(s)@.wf(),
        reads(req, 0x00),
    ensures
        req.length_or_data == 3 ==> rsp@.result == ResponseResult::Success && rsp@.data == seq![
            0u8,
            1u8,
            1u8,
        ],
        req.length_or_data != 3 ==> fails(rsp, ResponseResult::BadLength),
{
}

/// A read of the firmware version is answered with as many bytes of it as were asked for, up to all
/// of it.
pub proof fn firmware_version_is_read(req: Request, s: &mut RegisterState, rsp: Response)
    requires
        call_ensures(process_command, (req, s), rsp),
        old(s)@.wf(),
        reads(req, 0x01),
    ensures
        req.length_or_data <= 32 ==> {
            &&& rsp@.result == ResponseResult::Success
            &&& rsp@.data.len() == req.length_or_data
            &&& forall|i: int|
                0 <= i < req.length_or_data ==> #[trigger] rsp@.data[i] == old(
                    s,
                )@.firmware_version[i]
        },
        req.length_or_data > 32 ==> fails(rsp, ResponseResult::BadLength),
{
}

/// A read of the keyboard buffer that is no repeat is answered with the number of bytes waiting,
/// those bytes, oldest first, and zeros after them, cut to the length asked for. It takes fifteen
/// bytes out of the buffer, or all there are. Any other length is refused, and takes nothing.
pub proof fn keyboard_buffer_is_read(req: Request, s: &mut RegisterState, rsp: Response)
    requires
        call_ensures(process_command, (req, s), rsp),
        old(s)@.wf(),
        reads(req, 0x40),
        old(s)@.last_req != Some(req),
    ensures
        1 <= req.length_or_data <= 16 ==> {
            &&& rsp@.result == ResponseResult::Success
            &&& rsp@.data.len() == req.length_or_data
            &&& rsp@.data[0] == old(s)@.kb.len()
            &&& forall|i: int|
                1 <= i < req.length_or_data && i <= old(s)@.kb.len() ==> #[trigger] rsp@.data[i]
                    == old(s)@.kb[i - 1]
            &&& forall|i: int|
                1 <= i < req.length_or_data && i > old(s)@.kb.len() ==> #[trigger] rsp@.data[i] == 0
            &&& old(s)@.kb.len() <= 15 ==> final(s)@.kb.len() == 0
            &&& old(s)@.kb.len() > 15 ==> final(s)@.kb.len() == old(s)@.kb.len() - 15
            &&& forall|i: int|
                0 <= i < final(s)@.kb.len() ==> #[trigger] final(s)@.kb[i] == old(s)@.kb[i + 15]
        },
        !(1 <= req.length_or_data <= 16) ==> {
            &&& fails(rsp, ResponseResult::BadLength)
            &&& final(s)@.kb == old(s)@.kb
        },
{
    assert(1 <= req.length_or_data <= 16 ==> old(s)@.reports_keys(req));
}

/// Writes, and reads of any other register, are refused, and touch nothing.
pub proof fn everything_else_is_refused(req: Request, s: &mut RegisterState, rsp: Response)
    requires
        call_ensures(process_command, (req, s), rsp),
        old(s)@.wf(),
        !reads(req, 0x00),
        !reads(req, 0x01),
        !reads(req, 0x40),
    ensures
        fails(rsp, ResponseResult::BadRegister),
        final(s)@.kb == old(s)@.kb,
        final(s)@.scratch == old(s)@.scratch,
{
}

/// The same request twice in a row gets the same response twice, and the second one changes
/// nothing: neither what is waiting, nor what a third would get.
pub proof fn same_request_same_response(
    req: Request,
    s: &mut RegisterState,
    t: &mut RegisterState,
    first: Response,
    second: Response,
)
    requires
        call_ensures(process_command, (req, s), first),
        call_ensures(process_command, (req, t), second),
        *final(s) == *old(t),
        old(s)@.wf(),
    ensures
        second@ == first@,
        final(t)@ == final(s)@,
{
}

/// So it does when bytes from the keyboard came in between.
pub proof fn same_request_same_response_despite_key(
    req: Request,
    byte: u8,
    s: &mut RegisterState,
    k: &mut RegisterState,
    t: &mut RegisterState,
    first: Response,
    kept: bool,
    second: Response,
)
    requires
        call_ensures(process_command, (req, s), first),
        call_ensures(RegisterState::add_key, (k, byte), kept),
        call_ensures(process_command, (req, t), second),
        *final(s) == *old(k),
        *final(k) == *old(t),
        old(s)@.wf(),
    ensures
        second@ == first@,
        final(t)@ == final(k)@,
{
}

/// After another request, a read of the keyboard buffer reports what is waiting then: no request is
/// taken for a repeat but of the one just before.
pub proof fn other_request_is_answered_afresh(
    first: Request,
    second: Request,
    s: &mut RegisterState,
    t: &mut RegisterState,
    rsp_first: Response,
    rsp_second: Response,
)
    requires
        call_ensures(process_command, (first, s), rsp_first),
        call_ensures(process_command, (second, t), rsp_second),
        *final(s) == *old(t),
        old(s)@.wf(),
        first != second,
        reads(second, 0x40),
        1 <= second.length_or_data <= 16,
    ensures
        rsp_second@.result == ResponseResult::Success,
        rsp_second@.data[0] == old(t)@.kb.len(),
        forall|i: int|
            1 <= i < second.length_or_data && i <= old(t)@.kb.len() ==> #[trigger] rsp_second@.data[i]
                == old(t)@.kb[i - 1],
        old(t)@.kb.len() <= 15 ==> final(t)@.kb.len() == 0,
{
    assert(final(s)@.last_req != Some(second));
    keyboard_buffer_is_read(second, t, rsp_second);
}

/// Only a read of the keyboard buffer takes bytes out of it, and no request changes the firmware
/// version.
pub proof fn requests_leave_the_rest_alone(req: Request, s: &mut RegisterState, rsp: Response)
    requires
        call_ensures(process_command, (req, s), rsp),
        old(s)@.wf(),
    ensures
        final(s)@.firmware_version == old(s)@.firmware_version,
        !reads(req, 0x40) ==> final(s)@.kb == old(s)@.kb,
        final(s)@.wf(),
{
}

/// A byte from the keyboard goes to the end of the buffer as it is, unless the buffer holds sixteen;
/// then nothing changes, and that is said.
pub proof fn key_is_kept_as_it_is(byte: u8, s: &mut RegisterState, kept: bool)
    requires
        call_ensures(RegisterState::add_key, (s, byte), kept),
        old(s)@.wf(),
    ensures
        kept <==> old(s)@.kb.len() < 16,
        kept ==> {
            &&& final(s)@.kb.len() == old(s)@.kb.len() + 1
            &&& final(s)@.kb.last() == byte
            &&& final(s)@.kb.drop_last() == old(s)@.kb
        },
        !kept ==> final(s)@.kb == old(s)@.kb,
        final(s)@.firmware_version == old(s)@.firmware_version,
        final(s)@.scratch == old(s)@.scratch,
        final(s)@.last_req == old(s)@.last_req,
{
    if kept {
        assert(final(s)@.kb.drop_last() =~= old(s)@.kb);
    }
}

/// A byte kept in an empty buffer is what the next read of the buffer brings.
pub proof fn key_reaches_the_host(
    byte: u8,
    req: Request,
    s: &mut RegisterState,
    t: &mut RegisterState,
    kept: bool,
    rsp: Response,
)
    requires
        call_ensures(RegisterState::add_key, (s, byte), kept),
        call_ensures(process_command, (req, t), rsp),
        *final(s) == *old(t),
        old(s)@.wf(),
        old(s)@.kb.len() == 0,
        old(s)@.last_req != Some(req),
        reads(req, 0x40),
        2 <= req.length_or_data <= 16,
    ensures
        rsp@.data[0] == 1,
        rsp@.data[1] == byte,
        final(t)@.kb.len() == 0,
{
    key_is_kept_as_it_is(byte, s, kept);
    keyboard_buffer_is_read(req, t, rsp);
}

/// New registers hold the version they were given, no keys, and no request to repeat.
pub proof fn new_registers_are_empty(version: [u8; 32], r: RegisterState)
    requires
        call_ensures(RegisterState::new, (version,), r),
    ensures
        r@.firmware_version == version@,
        r@.kb.len() == 0,
        r@.last_req is None,
        r@.wf(),
{
}

/// Default registers are zero and empty.
pub proof fn default_registers_are_zero(r: RegisterState)
    requires
        call_ensures(RegisterState::default, (), r),
    ensures
        r@.firmware_version.len() == 32,
        forall|i: int| 0 <= i < 32 ==> #[trigger] r@.firmware_version[i] == 0,
        r@.kb.len() == 0,
        r@.last_req is None,
        r@.wf(),
{
}

/// Registers are sound when the buffers have their sizes and a remembered request is a read of the
/// keyboard buffer of 1 to 16 bytes: nothing else is asked of them.
pub proof fn sizes_make_registers_sound(registers: Registers)
    requires
        registers.firmware_version.len() == 32,
        registers.kb.len() <= 16,
        registers.scratch.len() == 16,
        registers.last_req matches Some(req) ==> reads(req, 0x40) && 1 <= req.length_or_data <= 16,
    ensures
        registers.wf(),
{
}

} // verus!
