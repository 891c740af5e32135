//! How bytes on the bus and requests and responses belong together.
//!
//! These laws speak of calls: `call_ensures(f, arguments, result)` says that `f`, called with
//! `arguments`, may return `result`.

use crate::idle::{queue_request, receive_request, Reception};
use crate::interrupts::QueueFull;
use crate::message::{Message, MessageQueue};
use crate::protocol::{crc8, crc8_byte, Frame, ProtocolError, Request, RequestType, Response, ResponseResult};
use vstd::prelude::*;

verus! {

/// Whether `request` is what the four bytes at the start of `data` say, field by field.
pub open spec fn says(data: Seq<u8>, request: Request) -> bool {
    &&& request.register == data[1]
    &&& request.length_or_data == data[2]
    &&& request.crc == data[3]
    &&& request.request_type == RequestType::Read <==> data[0] == 0xC0
    &&& request.request_type == RequestType::ReadAlt <==> data[0] == 0xC1
    &&& request.request_type == RequestType::ShortWrite <==> data[0] == 0xC2
    &&& request.request_type == RequestType::ShortWriteAlt <==> data[0] == 0xC3
    &&& request.request_type == RequestType::LongWrite <==> data[0] == 0xC4
    &&& request.request_type == RequestType::LongWriteAlt <==> data[0] == 0xC5
}

/// The fields of a decoded request are the bytes of the bus, in order.
pub proof fn request_fields_are_bytes(data: &[u8], r: Result<Request, ProtocolError>)
    requires
        call_ensures(Request::from_bytes, (data,), r),
    ensures
        r matches Ok(request) ==> data@.len() >= 4 && says(data@, request),
{
    if let Ok(request) = r {
        let start = data@.take(4);
        assert(request.bytes()[0] == start[0]);
        assert(request.bytes()[1] == start[1]);
        assert(request.bytes()[2] == start[2]);
        assert(request.bytes()[3] == start[3]);
    }
}

/// Bytes are a request exactly when there are four of them, their CRC-8 is zero and the first is
/// one of the six codes; otherwise the first of these that fails is the error.
pub proof fn request_is_refused_for_cause(data: &[u8], r: Result<Request, ProtocolError>)
    requires
        call_ensures(Request::from_bytes, (data,), r),
    ensures
        r is Ok <==> data@.len() >= 4 && crc8(data@.take(4)) == 0 && 0xC0 <= data@[0] <= 0xC5,
        r matches Err(error) ==> {
            &&& error == ProtocolError::BadLength <==> data@.len() < 4
            &&& error == ProtocolError::BadCrc <==> data@.len() >= 4 && crc8(data@.take(4)) != 0
            &&& error == ProtocolError::BadRequestType <==> data@.len() >= 4 && crc8(data@.take(4))
                == 0
        },
{
}

/// What follows the first four bytes does not matter.
pub proof fn only_four_bytes_count(
    data: &[u8],
    longer: &[u8],
    r: Result<Request, ProtocolError>,
    s: Result<Request, ProtocolError>,
)
    requires
        call_ensures(Request::from_bytes, (data,), r),
        call_ensures(Request::from_bytes, (longer,), s),
        data@.len() >= 4,
        longer@.len() >= 4,
        data@.take(4) == longer@.take(4),
    ensures
        r == s,
{
    assert(data@[0] == data@.take(4)[0]);
    assert(longer@[0] == longer@.take(4)[0]);
    request_fields_are_bytes(data, r);
    request_fields_are_bytes(longer, s);
    assert(data@[1] == data@.take(4)[1] && longer@[1] == longer@.take(4)[1]);
    assert(data@[2] == data@.take(4)[2] && longer@[2] == longer@.take(4)[2]);
    assert(data@[3] == data@.take(4)[3] && longer@[3] == longer@.take(4)[3]);
}

/// Bytes received over SPI are handed on exactly when they are a request, and then as that request;
/// they are kept only while more are needed.
pub proof fn reception_follows_decoding(
    data: &[u8],
    r: Result<Request, ProtocolError>,
    reception: Reception,
)
    requires
        call_ensures(Request::from_bytes, (data,), r),
        call_ensures(receive_request, (Some(data),), reception),
    ensures
        match r {
            Ok(request) => reception.request == Some(request),
            Err(_) => reception.request is None,
        },
        reception.mark_done <==> data@.len() >= 4,
        reception.request matches Some(request) ==> says(data@, request),
{
    request_fields_are_bytes(data, r);
    if let Some(request) = reception.request {
        let start = data@.take(4);
        assert(request.bytes()[0] == start[0]);
        assert(request.bytes()[1] == start[1]);
        assert(request.bytes()[2] == start[2]);
        assert(request.bytes()[3] == start[3]);
    }
}

/// With nothing received there is nothing to do.
pub proof fn no_bytes_no_request(reception: Reception)
    requires
        call_ensures(receive_request, (None,), reception),
    ensures
        reception.request is None,
        !reception.mark_done,
{
}

/// A request that was received is the last message in the queue, or the queue was full and that is
/// said; without one the queue stays as it is.
pub proof fn received_request_is_queued(
    request: Option<Request>,
    queue: &mut MessageQueue,
    r: Result<(), QueueFull>,
)
    requires
        call_ensures(queue_request, (request, queue), r),
    ensures
        request is None ==> r is Ok && final(queue)@ == old(queue)@,
        request matches Some(req) ==> {
            &&& r is Ok <==> old(queue)@.len() < 7
            &&& r is Ok ==> final(queue)@ == old(queue)@.push(Message::SpiRequest(req))
            &&& r is Err ==> final(queue)@ == old(queue)@
        },
{
    match request {
        None => {
            assert(final(queue)@ =~= old(queue)@);
        },
        Some(req) => {
            if old(queue)@.len() < 7 {
                assert(final(queue)@ =~= old(queue)@.push(Message::SpiRequest(req)));
            } else {
                assert(final(queue)@ =~= old(queue)@);
            }
        },
    }
}

/// The bytes that go out for a response are the code of its result, its data, and the CRC-8 of
/// those; and nothing else.
pub proof fn frame_is_result_data_and_crc(
    response: &Response,
    result: ResponseResult,
    data: &[u8],
    frame: Frame,
    bytes: &[u8],
)
    requires
        call_ensures(Response::result, (response,), result),
        call_ensures(Response::data, (response,), data),
        call_ensures(Response::to_frame, (response,), frame),
        call_ensures(Frame::as_slice, (&frame,), bytes),
    ensures
        bytes@.len() == data@.len() + 2,
        bytes@[0] == 0xA0 <==> result == ResponseResult::Success,
        bytes@[0] == 0xA1 <==> result == ResponseResult::CrcFailure,
        bytes@[0] == 0xA2 <==> result == ResponseResult::BadRequestType,
        bytes@[0] == 0xA3 <==> result == ResponseResult::BadRegister,
        bytes@[0] == 0xA4 <==> result == ResponseResult::BadLength,
        bytes@.subrange(1, bytes@.len() - 1) == data@,
        bytes@.last() == crc8(bytes@.drop_last()),
        result != ResponseResult::Success ==> data@.len() == 0,
{
    assert(bytes@.drop_last() =~= seq![response@.result.code()] + response@.data);
    assert(bytes@.subrange(1, bytes@.len() - 1) =~= data@);
}

/// `b` times x^2 + x + 1, over the field of two elements.
pub open spec fn times_seven(b: u16) -> u16 {
    b ^ (b << 1) ^ (b << 2)
}

/// The CRC-8 of a byte is that byte times x^8, modulo x^8 + x^2 + x + 1: since x^8 is then
/// x^2 + x + 1, it is the byte times that, and so again for what this leaves above the low eight
/// bits. That of nothing is zero.
pub proof fn crc8_is_a_remainder(b: u8)
    ensures
        crc8(seq![b]) == (times_seven(b as u16) & 0xFF) ^ times_seven(times_seven(b as u16) >> 8),
        crc8(Seq::empty()) == 0,
{
    assert(seq![b].drop_last() =~= Seq::<u8>::empty());
    assert(crc8(Seq::empty()) == 0);
    assert(crc8(seq![b]) == crc8_byte(0 ^ b));
    assert(crc8_byte(0 ^ b) == (times_seven(b as u16) & 0xFF) ^ times_seven(
        times_seven(b as u16) >> 8,
    )) by (bit_vector);
}

/// The CRC-8 of a longer message is had byte by byte: that of all but its last byte goes into it
/// together with the last.
pub proof fn crc8_goes_byte_by_byte(data: Seq<u8>, b: u8)
    ensures
        crc8(data.push(b)) == crc8(seq![crc8(data) ^ b]),
{
    let c = crc8(data) ^ b;
    assert(data.push(b).drop_last() =~= data);
    assert(seq![c].drop_last() =~= Seq::<u8>::empty());
    assert(0u8 ^ c == c) by (bit_vector);
    assert(crc8(Seq::empty()) == 0);
    assert(crc8(seq![c]) == crc8_byte(0u8 ^ c));
}

} // verus!
