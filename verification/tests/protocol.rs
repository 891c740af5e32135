use neotron_bmc::idle::receive_request;
use neotron_bmc::protocol::{ProtocolError, Request, RequestType, ResponseResult};
use neotron_bmc::registers::{process_command, RegisterState};

fn request(request_type: RequestType, register: u8, length_or_data: u8) -> Request {
    Request {
        request_type,
        register,
        length_or_data,
        crc: 0,
    }
}

#[test]
fn decodes_a_read() {
    assert_eq!(
        Request::from_bytes(&[0xC0, 0x11, 0x03, 0xC6]),
        Ok(Request {
            request_type: RequestType::Read,
            register: 0x11,
            length_or_data: 0x03,
            crc: 0xC6,
        })
    );
}

#[test]
fn decodes_every_request_type() {
    let frames = [
        ([0xC0, 0x10, 0x20, 0x3A], RequestType::Read),
        ([0xC1, 0x10, 0x20, 0x51], RequestType::ReadAlt),
        ([0xC2, 0x11, 0x22, 0xF7], RequestType::ShortWrite),
        ([0xC3, 0x11, 0x22, 0x9C], RequestType::ShortWriteAlt),
        ([0xC4, 0x0F, 0x50, 0x52], RequestType::LongWrite),
        ([0xC5, 0x0F, 0x50, 0x39], RequestType::LongWriteAlt),
    ];
    for (bytes, request_type) in frames {
        assert_eq!(
            Request::from_bytes(&bytes),
            Ok(Request {
                request_type,
                register: bytes[1],
                length_or_data: bytes[2],
                crc: bytes[3],
            })
        );
    }
}

#[test]
fn ignores_bytes_after_the_request() {
    let r = Request::from_bytes(&[0xC0, 0x11, 0x03, 0xC6, 0xFF]).unwrap();
    assert_eq!(r.register, 0x11);
    assert_eq!(r.crc, 0xC6);
}

#[test]
fn refuses_too_few_bytes() {
    assert_eq!(Request::from_bytes(&[]), Err(ProtocolError::BadLength));
    assert_eq!(
        Request::from_bytes(&[0xC0, 0x11, 0x03]),
        Err(ProtocolError::BadLength)
    );
}

#[test]
fn refuses_a_bad_crc() {
    assert_eq!(
        Request::from_bytes(&[0xC0, 0x11, 0x03, 0xC7]),
        Err(ProtocolError::BadCrc)
    );
}

#[test]
fn refuses_an_unknown_request_type() {
    assert_eq!(
        Request::from_bytes(&[0xC6, 0x00, 0x03, 0xF9]),
        Err(ProtocolError::BadRequestType)
    );
}

#[test]
fn waits_for_more_bytes() {
    let r = receive_request(None);
    assert_eq!((r.request, r.mark_done), (None, false));
    let r = receive_request(Some(&[0xC0, 0x11]));
    assert_eq!((r.request, r.mark_done), (None, false));
}

#[test]
fn throws_bad_bytes_away() {
    let r = receive_request(Some(&[0xC0, 0x11, 0x03, 0x00]));
    assert_eq!((r.request, r.mark_done), (None, true));
    let r = receive_request(Some(&[0xC6, 0x00, 0x03, 0xF9]));
    assert_eq!((r.request, r.mark_done), (None, true));
}

#[test]
fn hands_a_request_on() {
    let r = receive_request(Some(&[0xC1, 0x40, 0x10, 0xCD]));
    assert!(r.mark_done);
    let request = r.request.unwrap();
    assert_eq!(request.request_type, RequestType::ReadAlt);
    assert_eq!(request.register, 0x40);
    assert_eq!(request.length_or_data, 16);
    assert_eq!(request.crc, 0xCD);
}

#[test]
fn renders_success() {
    let mut registers = RegisterState::default();
    let rsp = process_command(request(RequestType::Read, 0x00, 3), &mut registers);
    assert_eq!(rsp.to_frame().as_slice(), &[0xA0, 0, 1, 1, 0xED]);
}

#[test]
fn renders_success_without_data() {
    let mut registers = RegisterState::default();
    let rsp = process_command(request(RequestType::Read, 0x01, 0), &mut registers);
    assert_eq!(rsp.result(), ResponseResult::Success);
    assert_eq!(rsp.to_frame().as_slice(), &[0xA0, 0x69]);
}

#[test]
fn renders_the_longest_response() {
    let mut registers = RegisterState::new([0x55; 32]);
    let rsp = process_command(request(RequestType::Read, 0x01, 32), &mut registers);
    let frame = rsp.to_frame();
    assert_eq!(frame.as_slice().len(), 34);
    assert_eq!(frame.as_slice()[0], 0xA0);
    assert_eq!(&frame.as_slice()[1..33], &[0x55; 32]);
    assert_eq!(neotron_bmc_protocol::calculate_crc(frame.as_slice()), 0);
}

#[test]
fn renders_failures() {
    let mut registers = RegisterState::default();
    let rsp = process_command(request(RequestType::Read, 0x02, 1), &mut registers);
    assert_eq!(rsp.result(), ResponseResult::BadRegister);
    assert_eq!(rsp.to_frame().as_slice(), &[0xA3, 0x60]);
    let rsp = process_command(request(RequestType::Read, 0x00, 4), &mut registers);
    assert_eq!(rsp.result(), ResponseResult::BadLength);
    assert_eq!(rsp.to_frame().as_slice(), &[0xA4, 0x75]);
}

#[test]
fn every_frame_checks_out() {
    let mut registers = RegisterState::new(*b"v1.2.3-test\0\0\0\0\0\0\0\0\0\0\0\0\0\0\0\0\0\0\0\0\0");
    for register in 0..=255u8 {
        for length in [0, 1, 3, 15, 16, 17, 32, 33, 255] {
            let rsp = process_command(
                request(RequestType::ReadAlt, register, length),
                &mut registers,
            );
            let frame = rsp.to_frame();
            assert_eq!(neotron_bmc_protocol::calculate_crc(frame.as_slice()), 0);
            assert_eq!(frame.as_slice().len(), rsp.data().len() + 2);
            if rsp.result() == ResponseResult::Success {
                assert_eq!(rsp.data().len(), length as usize);
            } else {
                assert!(rsp.data().is_empty());
            }
        }
    }
}
