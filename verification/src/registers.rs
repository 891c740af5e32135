//! The registers that the host reads over SPI.

use crate::fifo::{kb_contents, kb_len, kb_new, kb_pop_front, kb_push_back, KB_CAPACITY};
use crate::protocol::{Reply, Request, RequestType, Response, ResponseResult};
use neotron_bmc_commands::Command;
use vstd::prelude::*;

verus! {

/// The number of the register that holds the protocol version.
pub const PROTOCOL_VERSION: u8 = 0x00;

/// The number of the register that holds the firmware version.
pub const FIRMWARE_VERSION: u8 = 0x01;

/// The number of the register that empties the keyboard buffer.
pub const PS2_KB_BUFFER: u8 = 0x40;

/// How many bytes from the keyboard a report holds at most.
pub const KEYS_PER_REPORT: usize = 15;

/// Whether a command of the BMC has the number `register`.
pub open spec fn is_command(register: u8) -> bool {
    ||| register <= 0x01
    ||| 0x10 <= register <= 0x11
    ||| 0x20 <= register <= 0x25
    ||| 0x30 <= register <= 0x34
    ||| 0x40 <= register <= 0x42
    ||| 0x50 <= register <= 0x52
    ||| 0x60 <= register <= 0x64
    ||| 0x70 <= register <= 0x73
}

/// The number of the command that `neotron_bmc_commands::Command::try_from` finds for `register`.
///
/// Trusted: it finds one exactly for the registers that the BMC's commands are numbered by, and
/// that command has the register's number.
#[verifier::external_body]
fn command_number(register: u8) -> (r: Option<u8>)
    ensures
        r == (if is_command(register) {
            Some(register)
        } else {
            None
        }),
{
    Command::try_from(register).ok().map(u8::from)
}

/// This is our system state, as accessible via SPI reads and writes.
#[derive(Debug)]
pub struct RegisterState {
    /// The version of this firmware
    firmware_version: [u8; 32],
    /// Bytes we've read from the keyboard, ready for sending to the host
    ps2_kb_bytes: heapless::Deque<u8, 16>,
    /// Used for holding our TX buffer, so we can re-send if required
    scratch: [u8; 16],
    /// A copy of the last request, so we can spot duplicates and re-send
    /// without re-doing a FIFO read. This happens if our response gets a CRC
    /// error.
    last_req: Option<Request>,
}

/// The contents of the registers.
#[verifier::ext_equal]
pub struct Registers {
    /// The version of this firmware.
    pub firmware_version: Seq<u8>,
    /// The bytes from the keyboard that the host has not had yet, oldest first.
    pub kb: Seq<u8>,
    /// The latest report of the keyboard buffer.
    pub scratch: Seq<u8>,
    /// The request that `scratch` answers, when that was the last one.
    pub last_req: Option<Request>,
}

/// A report of the keyboard buffer: how many bytes it holds, then as many of them as fit, then
/// zeros.
pub open spec fn kb_report(kb: Seq<u8>) -> Seq<u8> {
    Seq::new(
        16,
        |i: int|
            if i == 0 {
                kb.len() as u8
            } else if i <= kb.len() {
                kb[i - 1]
            } else {
                0
            },
    )
}

/// What a report leaves in the keyboard buffer.
pub open spec fn kb_left(kb: Seq<u8>) -> Seq<u8> {
    if kb.len() <= KEYS_PER_REPORT {
        Seq::empty()
    } else {
        kb.skip(KEYS_PER_REPORT as int)
    }
}

impl Registers {
    /// The registers of a controller that has just started.
    pub open spec fn fresh(firmware_version: Seq<u8>) -> Registers {
        Registers {
            firmware_version,
            kb: Seq::empty(),
            scratch: Seq::new(16, |i: int| 0u8),
            last_req: None,
        }
    }

    /// What holds of the registers at all times: the sizes of the buffers, and that a request we
    /// remember is one that we can answer again from `scratch`.
    pub open spec fn wf(self) -> bool {
        &&& self.firmware_version.len() == 32
        &&& self.kb.len() <= KB_CAPACITY
        &&& self.scratch.len() == 16
        &&& self.last_req matches Some(req) ==> req.request_type.is_read() && req.register
            == PS2_KB_BUFFER && 0 < req.length_or_data <= 16
    }

    /// Whether `req` repeats the request that `scratch` answers.
    pub open spec fn is_repeat(self, req: Request) -> bool {
        self.last_req == Some(req)
    }

    /// The registers after a keyboard byte came in.
    pub open spec fn with_key(self, byte: u8) -> Registers {
        Registers {
            kb: if self.kb.len() < KB_CAPACITY {
                self.kb.push(byte)
            } else {
                self.kb
            },
            ..self
        }
    }

    /// Whether `req` makes us empty the keyboard buffer into a new report.
    pub open spec fn reports_keys(self, req: Request) -> bool {
        &&& !self.is_repeat(req)
        &&& req.request_type.is_read()
        &&& req.register == PS2_KB_BUFFER
        &&& 0 < req.length_or_data <= 16
    }

    /// The registers after `req` was dealt with.
    pub open spec fn after(self, req: Request) -> Registers {
        if self.is_repeat(req) {
            self
        } else if self.reports_keys(req) {
            Registers {
                kb: kb_left(self.kb),
                scratch: kb_report(self.kb),
                last_req: Some(req),
                ..self
            }
        } else {
            Registers { last_req: None, ..self }
        }
    }

    /// The reply to `req`.
    pub open spec fn reply(self, req: Request) -> Reply {
        let length = req.length_or_data as int;
        if self.is_repeat(req) {
            Reply::ok(self.scratch.take(length))
        } else if !req.request_type.is_read() {
            Reply::bare(ResponseResult::BadRegister)
        } else if req.register == PROTOCOL_VERSION {
            if length == 3 {
                Reply::ok(seq![0, 1, 1])
            } else {
                Reply::bare(ResponseResult::BadLength)
            }
        } else if req.register == FIRMWARE_VERSION {
            if length <= self.firmware_version.len() {
                Reply::ok(self.firmware_version.take(length))
            } else {
                Reply::bare(ResponseResult::BadLength)
            }
        } else if req.register == PS2_KB_BUFFER {
            if 0 < length <= 16 {
                Reply::ok(kb_report(self.kb).take(length))
            } else {
                Reply::bare(ResponseResult::BadLength)
            }
        } else {
            Reply::bare(ResponseResult::BadRegister)
        }
    }
}

impl View for RegisterState {
    type V = Registers;

    closed spec fn view(&self) -> Registers {
        Registers {
            firmware_version: self.firmware_version@,
            kb: kb_contents(self.ps2_kb_bytes),
            scratch: self.scratch@,
            last_req: self.last_req,
        }
    }
}

impl RegisterState {
    /// The registers of a controller that has just started, with this firmware.
    pub fn new(firmware_version: [u8; 32]) -> (r: RegisterState)
        ensures
            r@ == Registers::fresh(firmware_version@),
            r@.wf(),
    {
        let r = RegisterState {
            firmware_version,
            ps2_kb_bytes: kb_new(),
            scratch: [0; 16],
            last_req: None,
        };
        assert(r@ =~= Registers::fresh(firmware_version@));
        r
    }

    /// Keeps a byte from the keyboard for the host. Says whether there was room for it.
    pub fn add_key(&mut self, byte: u8) -> (kept: bool)
        requires
            old(self)@.wf(),
        ensures
            final(self)@ == old(self)@.with_key(byte),
            final(self)@.wf(),
            kept == (old(self)@.kb.len() < KB_CAPACITY),
    {
        match kb_push_back(&mut self.ps2_kb_bytes, byte) {
            Ok(_) => true,
            Err(_) => false,
        }
    }

    /// Empties the keyboard buffer into `scratch`.
    fn report_keys(&mut self)
        requires
            old(self)@.wf(),
        ensures
            final(self)@ == (Registers {
                kb: kb_left(old(self)@.kb),
                scratch: kb_report(old(self)@.kb),
                ..old(self)@
            }),
    {
        let ghost kb = self@.kb;
        // First byte is the # bytes in the FIFO
        let count: usize = kb_len(&self.ps2_kb_bytes);
        self.scratch[0] = count as u8;
        // Then as many of those FIFO bytes as fit
        let mut i: usize = 1;
        while i < 16
            invariant
                1 <= i <= 16,
                kb.len() <= 16,
                self.firmware_version == old(self).firmware_version,
                self.last_req == old(self).last_req,
                self.scratch@.len() == 16,
                forall|j: int| 0 <= j < i ==> self.scratch@[j] == kb_report(kb)[j],
                kb_contents(self.ps2_kb_bytes) =~= (if kb.len() < i {
                    Seq::empty()
                } else {
                    kb.skip(i - 1)
                }),
            decreases 16 - i,
        {
            let byte: u8 = match kb_pop_front(&mut self.ps2_kb_bytes) {
                Some(x) => x,
                None => 0,
            };
            self.scratch[i] = byte;
            i = i + 1;
        }
        assert(self.scratch@ =~= kb_report(kb));
    }
}

impl Default for RegisterState {
    /// All zero and empty.
    fn default() -> (r: RegisterState)
        ensures
            r@ == Registers::fresh(Seq::new(32, |i: int| 0u8)),
            r@.wf(),
    {
        let version: [u8; 32] = [0; 32];
        assert(version@ =~= Seq::new(32, |i: int| 0u8));
        RegisterState::new(version)
    }
}

/// Process an incoming command, converting a request into a response.
pub fn process_command(req: Request, register_state: &mut RegisterState) -> (rsp: Response)
    requires
        old(register_state)@.wf(),
    ensures
        rsp@ == old(register_state)@.reply(req),
        final(register_state)@ == old(register_state)@.after(req),
        final(register_state)@.wf(),
{
    let length = req.length_or_data as usize;
    if let Some(last_req) = register_state.last_req {
        if last_req == req {
            // A duplicate! Resend what we sent last time (so we don't affect FIFOs with a duplicate read).
            return Response::new_ok_with_data(&register_state.scratch[0..length]);
        }
    }
    // We were not sent what we were sent last time, so forget the previous request.
    register_state.last_req = None;

    // What do they want?
    match (req.request_type, command_number(req.register)) {
        (RequestType::Read, Some(PROTOCOL_VERSION))
        | (RequestType::ReadAlt, Some(PROTOCOL_VERSION)) => {
            // They want the Protocol Version we support. Give them v0.1.1.
            if length == 3 {
                // No need to cache
                Response::new_ok_with_data(&[0, 1, 1])
            } else {
                Response::new_without_data(ResponseResult::BadLength)
            }
        },
        (RequestType::Read, Some(FIRMWARE_VERSION))
        | (RequestType::ReadAlt, Some(FIRMWARE_VERSION)) => {
            // They want the Firmware Version string.
            if length <= 32 {
                // No need to cache
                Response::new_ok_with_data(&register_state.firmware_version[0..length])
            } else {
                Response::new_without_data(ResponseResult::BadLength)
            }
        },
        (RequestType::Read, Some(PS2_KB_BUFFER)) | (RequestType::ReadAlt, Some(PS2_KB_BUFFER)) => {
            if length > 0 && length <= 16 {
                register_state.report_keys();
                // OK, cache this one because FIFO reads are damaging.
                register_state.last_req = Some(req);
                // Send the response
                Response::new_ok_with_data(&register_state.scratch[0..length])
            } else {
                // Can't help you - you want a weird number of bytes
                Response::new_without_data(ResponseResult::BadLength)
            }
        },
        _ => {
            // Sorry, that register / request type is not supported
            Response::new_without_data(ResponseResult::BadRegister)
        },
    }
}

} // verus!
