//! Requests from the host, responses to the host, and their form on the SPI bus.

use neotron_bmc_protocol as proto;
use neotron_bmc_protocol::Receivable;
use neotron_bmc_protocol::Sendable;
use vstd::prelude::*;

verus! {

/// The length of every request, in bytes.
pub const REQUEST_LEN: usize = 4;

/// The most bytes that a response carries between its result and its CRC.
pub const MAX_PAYLOAD: usize = 32;

/// The most bytes that a response takes up on the bus.
pub const MAX_FRAME: usize = 34;

/// The kinds of request that the host can make.
#[derive(Debug, Clone, Copy, PartialEq, Eq, Structural)]
pub enum RequestType {
    Read,
    ReadAlt,
    ShortWrite,
    ShortWriteAlt,
    LongWrite,
    LongWriteAlt,
}

/// Why bytes are not a request.
#[derive(Debug, Clone, Copy, PartialEq, Eq, Structural)]
pub enum ProtocolError {
    BadCrc,
    BadLength,
    BadRequestType,
    BufferTooSmall,
    BadResponseResult,
}

/// How a request was dealt with.
#[derive(Debug, Clone, Copy, PartialEq, Eq, Structural)]
pub enum ResponseResult {
    /// The request was understood and acted on.
    Success,
    /// The request's CRC did not match.
    CrcFailure,
    /// The request's type is not known.
    BadRequestType,
    /// The register is not known, or does not support this type of request.
    BadRegister,
    /// The register cannot be read or written with this many bytes.
    BadLength,
}

/// A request made by the host.
#[derive(Debug, Clone, Copy, PartialEq, Eq, Structural)]
pub struct Request {
    pub request_type: RequestType,
    pub register: u8,
    pub length_or_data: u8,
    pub crc: u8,
}

/// One bit of a CRC-8 division by x^8 + x^2 + x + 1.
pub open spec fn crc8_bit(crc: u8) -> u8 {
    if crc & 0x80 != 0 {
        (crc << 1) ^ 0x07
    } else {
        crc << 1
    }
}

/// One byte of a CRC-8 division: eight bits of it.
pub open spec fn crc8_byte(crc: u8) -> u8 {
    crc8_bit(crc8_bit(crc8_bit(crc8_bit(crc8_bit(crc8_bit(crc8_bit(crc8_bit(crc))))))))
}

/// The CRC-8 of `data`: generator x^8 + x^2 + x + 1, initial value 0, most significant bit
/// first, nothing added at the end.
pub open spec fn crc8(data: Seq<u8>) -> u8
    decreases data.len(),
{
    if data.len() == 0 {
        0
    } else {
        crc8_byte(crc8(data.drop_last()) ^ data.last())
    }
}

impl RequestType {
    /// The byte that stands for this type on the bus.
    pub open spec fn code(self) -> u8 {
        match self {
            RequestType::Read => 0xC0,
            RequestType::ReadAlt => 0xC1,
            RequestType::ShortWrite => 0xC2,
            RequestType::ShortWriteAlt => 0xC3,
            RequestType::LongWrite => 0xC4,
            RequestType::LongWriteAlt => 0xC5,
        }
    }

    /// Whether this is one of the two types of read.
    pub open spec fn is_read(self) -> bool {
        self is Read || self is ReadAlt
    }

    /// The type that `code` stands for.
    fn from_code(code: u8) -> (r: RequestType)
        requires
            0xC0 <= code <= 0xC5,
        ensures
            r.code() == code,
    {
        match code {
            0xC0 => RequestType::Read,
            0xC1 => RequestType::ReadAlt,
            0xC2 => RequestType::ShortWrite,
            0xC3 => RequestType::ShortWriteAlt,
            0xC4 => RequestType::LongWrite,
            _ => RequestType::LongWriteAlt,
        }
    }
}

impl ResponseResult {
    /// The byte that stands for this result on the bus.
    pub open spec fn code(self) -> u8 {
        match self {
            ResponseResult::Success => 0xA0,
            ResponseResult::CrcFailure => 0xA1,
            ResponseResult::BadRequestType => 0xA2,
            ResponseResult::BadRegister => 0xA3,
            ResponseResult::BadLength => 0xA4,
        }
    }
}

impl Request {
    /// The four bytes of this request on the bus.
    pub open spec fn bytes(self) -> Seq<u8> {
        seq![self.request_type.code(), self.register, self.length_or_data, self.crc]
    }
}

/// Why `data`, as received on the bus, is not a request, if it is not.
pub open spec fn request_error(data: Seq<u8>) -> Option<ProtocolError> {
    if data.len() < REQUEST_LEN {
        Some(ProtocolError::BadLength)
    } else if crc8(data.take(4)) != 0 {
        Some(ProtocolError::BadCrc)
    } else if !(0xC0 <= data[0] <= 0xC5) {
        Some(ProtocolError::BadRequestType)
    } else {
        None
    }
}

/// Decodes a request with `neotron_bmc_protocol::Request::from_bytes`, and hands back its four
/// bytes as `Request::as_bytes` gives them.
///
/// Trusted: fewer than four bytes are a bad length; then a CRC-8 of the first four bytes other
/// than zero is a bad CRC; then a first byte outside `0xC0..=0xC5` is a bad request type. Any
/// other input is a request made of its first four bytes.
#[verifier::external_body]
fn decode_request(data: &[u8]) -> (r: Result<[u8; 4], ProtocolError>)
    ensures
        match r {
            Ok(bytes) => request_error(data@) is None && bytes@ == data@.take(4),
            Err(error) => request_error(data@) == Some(error),
        },
{
    match proto::Request::from_bytes(data) {
        Ok(request) => Ok(request.as_bytes()),
        Err(proto::Error::BadCrc) => Err(ProtocolError::BadCrc),
        Err(proto::Error::BadLength) => Err(ProtocolError::BadLength),
        Err(proto::Error::BadRequestType) => Err(ProtocolError::BadRequestType),
        Err(proto::Error::BufferTooSmall) => Err(ProtocolError::BufferTooSmall),
        Err(proto::Error::BadResponseResult) => Err(ProtocolError::BadResponseResult),
    }
}

impl Request {
    /// Decodes a request from the bytes received so far.
    pub fn from_bytes(data: &[u8]) -> (r: Result<Request, ProtocolError>)
        ensures
            match r {
                Ok(request) => request_error(data@) is None && request.bytes() == data@.take(4),
                Err(error) => request_error(data@) == Some(error),
            },
            r matches Ok(request) ==> request.register == data@[1] && request.length_or_data
                == data@[2] && request.crc == data@[3],
    {
        match decode_request(data) {
            Ok(bytes) => {
                let request = Request {
                    request_type: RequestType::from_code(bytes[0]),
                    register: bytes[1],
                    length_or_data: bytes[2],
                    crc: bytes[3],
                };
                assert(request.bytes() =~= data@.take(4));
                Ok(request)
            },
            Err(error) => Err(error),
        }
    }
}

/// A response to the host: a result, and the bytes that go with it.
#[derive(Debug, Clone, Copy)]
pub struct Response {
    result: ResponseResult,
    data: [u8; 32],
    len: usize,
}

/// What a response says.
#[verifier::ext_equal]
pub struct Reply {
    pub result: ResponseResult,
    pub data: Seq<u8>,
}

impl Reply {
    /// Success, with `data`.
    pub open spec fn ok(data: Seq<u8>) -> Reply {
        Reply { result: ResponseResult::Success, data }
    }

    /// `result`, with nothing else.
    pub open spec fn bare(result: ResponseResult) -> Reply {
        Reply { result, data: Seq::empty() }
    }

    /// This reply on the bus: the result, the data, and the CRC-8 of both.
    pub open spec fn frame(self) -> Seq<u8> {
        let body = seq![self.result.code()] + self.data;
        body.push(crc8(body))
    }

    /// Only success carries data, and no more than fits.
    pub open spec fn wf(self) -> bool {
        &&& self.data.len() <= MAX_PAYLOAD
        &&& self.result !is Success ==> self.data.len() == 0
    }
}

impl View for Response {
    type V = Reply;

    closed spec fn view(&self) -> Reply {
        Reply { result: self.result, data: self.data@.take(self.len as int) }
    }
}

impl Response {
    #[verifier::type_invariant]
    spec fn bounded(self) -> bool {
        &&& self.len <= 32
        &&& self.result !is Success ==> self.len == 0
    }

    /// Makes a response of success, with some data.
    pub(crate) fn new_ok_with_data(data: &[u8]) -> (r: Response)
        requires
            data@.len() <= MAX_PAYLOAD,
        ensures
            r@ == Reply::ok(data@),
    {
        let mut bytes: [u8; 32] = [0; 32];
        let len: usize = data.len();
        let mut i: usize = 0;
        while i < len
            invariant
                i <= len,
                len == data@.len(),
                len <= 32,
                bytes@.take(i as int) =~= data@.take(i as int),
            decreases len - i,
        {
            bytes[i] = data[i];
            i = i + 1;
        }
        assert(data@.take(len as int) =~= data@);
        Response { result: ResponseResult::Success, data: bytes, len }
    }

    /// Makes a response that tells of a failure.
    pub(crate) fn new_without_data(result: ResponseResult) -> (r: Response)
        ensures
            r@ == Reply::bare(result),
    {
        let r = Response { result, data: [0; 32], len: 0 };
        assert(r@.data =~= Seq::<u8>::empty());
        r
    }

    /// The result.
    pub fn result(&self) -> (r: ResponseResult)
        ensures
            r == self@.result,
    {
        self.result
    }

    /// The bytes that go with the result.
    pub fn data(&self) -> (r: &[u8])
        ensures
            r@ == self@.data,
            self@.wf(),
    {
        proof {
            use_type_invariant(self);
        }
        &self.data[0..self.len]
    }
}

/// A response as it goes out on the bus.
#[derive(Debug, Clone, Copy)]
pub struct Frame {
    bytes: [u8; 34],
    len: usize,
}

impl View for Frame {
    type V = Seq<u8>;

    closed spec fn view(&self) -> Seq<u8> {
        self.bytes@.take(self.len as int)
    }
}

/// Renders a response of success with `neotron_bmc_protocol::Response::new_ok_with_data` and the
/// response's `Sendable::render_to_buffer`.
///
/// Trusted: the start of the buffer becomes the code for success, the data, and the CRC-8 of
/// those; the rest of the buffer stays; the result counts the bytes written.
#[verifier::external_body]
fn render_ok(data: &[u8], buffer: &mut [u8; 34]) -> (r: usize)
    requires
        data@.len() <= MAX_PAYLOAD,
    ensures
        r == data@.len() + 2,
        final(buffer)@ == Reply::ok(data@).frame() + old(buffer)@.skip(data@.len() as int + 2),
{
    proto::Response::new_ok_with_data(data).render_to_buffer(buffer).unwrap()
}

/// Renders a response without data with `neotron_bmc_protocol::Response::new_without_data` and the
/// response's `Sendable::render_to_buffer`.
///
/// Trusted: the start of the buffer becomes the code for the result and the CRC-8 of it; the rest
/// of the buffer stays; the result counts the two bytes written.
#[verifier::external_body]
fn render_bare(result: ResponseResult, buffer: &mut [u8; 34]) -> (r: usize)
    ensures
        r == 2,
        final(buffer)@ == Reply::bare(result).frame() + old(buffer)@.skip(2),
{
    let result = match result {
        ResponseResult::Success => proto::ResponseResult::Ok,
        ResponseResult::CrcFailure => proto::ResponseResult::CrcFailure,
        ResponseResult::BadRequestType => proto::ResponseResult::BadRequestType,
        ResponseResult::BadRegister => proto::ResponseResult::BadRegister,
        ResponseResult::BadLength => proto::ResponseResult::BadLength,
    };
    proto::Response::new_without_data(result).render_to_buffer(buffer).unwrap()
}

impl Frame {
    #[verifier::type_invariant]
    spec fn bounded(self) -> bool {
        self.len <= 34
    }

    /// The bytes to send.
    pub fn as_slice(&self) -> (r: &[u8])
        ensures
            r@ == self@,
    {
        proof {
            use_type_invariant(self);
        }
        &self.bytes[0..self.len]
    }
}

impl Response {
    /// Renders this response for the bus.
    pub fn to_frame(&self) -> (r: Frame)
        ensures
            r@ == self@.frame(),
    {
        proof {
            use_type_invariant(self);
        }
        let mut bytes: [u8; 34] = [0; 34];
        let len: usize = match self.result {
            ResponseResult::Success => render_ok(&self.data[0..self.len], &mut bytes),
            _ => render_bare(self.result, &mut bytes),
        };
        assert(self@ =~= if self.result is Success {
            Reply::ok(self@.data)
        } else {
            Reply::bare(self.result)
        });
        assert(bytes@.take(len as int) =~= self@.frame());
        Frame { bytes, len }
    }
}

/// The CRC-8 of a frame, its own CRC included, is zero: this is how the host tells that a response
/// arrived whole.
pub proof fn frame_checks_out(reply: Reply)
    ensures
        crc8(reply.frame()) == 0,
{
    let body = seq![reply.result.code()] + reply.data;
    let crc = crc8(body);
    assert(reply.frame().drop_last() =~= body);
    assert(crc ^ crc == 0) by (bit_vector);
    assert(0u8 & 0x80 == 0) by (bit_vector);
    assert(0u8 << 1 == 0) by (bit_vector);
}

/// The four bytes of a request, when their last is the CRC-8 of the others, decode: no request is
/// refused that the host put together properly.
pub proof fn sound_request_decodes(request: Request)
    requires
        request.crc == crc8(request.bytes().take(3)),
    ensures
        request_error(request.bytes()) is None,
{
    let bytes = request.bytes();
    let crc = request.crc;
    assert(bytes.take(4) =~= bytes);
    assert(bytes.drop_last() =~= bytes.take(3));
    assert(crc ^ crc == 0) by (bit_vector);
    assert(0u8 & 0x80 == 0) by (bit_vector);
    assert(0u8 << 1 == 0) by (bit_vector);
}

} // verus!
