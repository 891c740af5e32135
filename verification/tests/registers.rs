use neotron_bmc::protocol::{Request, RequestType, ResponseResult};
use neotron_bmc::registers::{process_command, RegisterState};

fn read(alt: bool, register: u8, length: u8) -> Request {
    Request {
        request_type: if alt {
            RequestType::ReadAlt
        } else {
            RequestType::Read
        },
        register,
        length_or_data: length,
        crc: 0,
    }
}

fn version() -> [u8; 32] {
    let mut version = [0; 32];
    for (i, b) in version.iter_mut().enumerate() {
        *b = i as u8 + 1;
    }
    version
}

#[test]
fn protocol_version_is_0_1_1() {
    let mut registers = RegisterState::new(version());
    for alt in [false, true] {
        let rsp = process_command(read(alt, 0x00, 3), &mut registers);
        assert_eq!(rsp.result(), ResponseResult::Success);
        assert_eq!(rsp.data(), &[0, 1, 1]);
        for length in [0, 2, 4, 255] {
            let rsp = process_command(read(alt, 0x00, length), &mut registers);
            assert_eq!(rsp.result(), ResponseResult::BadLength);
        }
    }
}

#[test]
fn firmware_version_is_read_up_to_32_bytes() {
    let mut registers = RegisterState::new(version());
    for length in 0..=32u8 {
        let rsp = process_command(read(false, 0x01, length), &mut registers);
        assert_eq!(rsp.result(), ResponseResult::Success);
        assert_eq!(rsp.data(), &version()[0..length as usize]);
    }
    let rsp = process_command(read(false, 0x01, 33), &mut registers);
    assert_eq!(rsp.result(), ResponseResult::BadLength);
}

#[test]
fn default_registers_are_zero() {
    let mut registers = RegisterState::default();
    let rsp = process_command(read(false, 0x01, 32), &mut registers);
    assert_eq!(rsp.data(), &[0; 32]);
    let rsp = process_command(read(false, 0x40, 16), &mut registers);
    assert_eq!(rsp.data(), &[0; 16]);
}

#[test]
fn keyboard_report_counts_and_lists_bytes() {
    let mut registers = RegisterState::new(version());
    for byte in [0x1C, 0xF0, 0x1C] {
        assert!(registers.add_key(byte));
    }
    let rsp = process_command(read(false, 0x40, 5), &mut registers);
    assert_eq!(rsp.result(), ResponseResult::Success);
    assert_eq!(rsp.data(), &[3, 0x1C, 0xF0, 0x1C, 0]);
    assert_eq!(
        rsp.to_frame().as_slice(),
        &[0xA0, 3, 0x1C, 0xF0, 0x1C, 0, 0x39]
    );
    let rsp = process_command(read(true, 0x40, 5), &mut registers);
    assert_eq!(rsp.data(), &[0, 0, 0, 0, 0]);
}

#[test]
fn keyboard_report_has_bounds_on_its_length() {
    let mut registers = RegisterState::new(version());
    assert!(registers.add_key(7));
    for length in [0, 17, 255] {
        let rsp = process_command(read(false, 0x40, length), &mut registers);
        assert_eq!(rsp.result(), ResponseResult::BadLength);
    }
    let rsp = process_command(read(false, 0x40, 16), &mut registers);
    assert_eq!(rsp.data()[0..2], [1, 7]);
}

#[test]
fn repeated_keyboard_read_brings_the_same_bytes() {
    let mut registers = RegisterState::new(version());
    for byte in 1..=16 {
        assert!(registers.add_key(byte));
    }
    let first = process_command(read(false, 0x40, 16), &mut registers);
    assert_eq!(
        first.data(),
        &[16, 1, 2, 3, 4, 5, 6, 7, 8, 9, 10, 11, 12, 13, 14, 15]
    );
    assert!(registers.add_key(99));
    let again = process_command(read(false, 0x40, 16), &mut registers);
    assert_eq!(again.data(), first.data());
    let again = process_command(read(false, 0x40, 16), &mut registers);
    assert_eq!(again.to_frame().as_slice(), first.to_frame().as_slice());
    let next = process_command(read(true, 0x40, 16), &mut registers);
    assert_eq!(next.data()[0..4], [2, 16, 99, 0]);
}

#[test]
fn a_request_with_another_crc_is_no_repeat() {
    let mut registers = RegisterState::new(version());
    assert!(registers.add_key(5));
    let mut req = read(false, 0x40, 2);
    assert_eq!(process_command(req, &mut registers).data(), &[1, 5]);
    req.crc = 1;
    assert_eq!(process_command(req, &mut registers).data(), &[0, 0]);
}

#[test]
fn another_request_makes_us_forget() {
    let mut registers = RegisterState::new(version());
    assert!(registers.add_key(5));
    assert_eq!(
        process_command(read(false, 0x40, 2), &mut registers).data(),
        &[1, 5]
    );
    assert_eq!(
        process_command(read(false, 0x00, 3), &mut registers).data(),
        &[0, 1, 1]
    );
    assert_eq!(
        process_command(read(false, 0x40, 2), &mut registers).data(),
        &[0, 0]
    );
}

#[test]
fn a_short_read_drops_what_it_does_not_show() {
    let mut registers = RegisterState::new(version());
    for byte in 1..=4 {
        assert!(registers.add_key(byte));
    }
    assert_eq!(
        process_command(read(false, 0x40, 2), &mut registers).data(),
        &[4, 1]
    );
    assert_eq!(
        process_command(read(true, 0x40, 16), &mut registers).data(),
        &[0; 16]
    );
}

#[test]
fn full_keyboard_buffer_drops_bytes() {
    let mut registers = RegisterState::new(version());
    for byte in 0..16 {
        assert!(registers.add_key(byte));
    }
    assert!(!registers.add_key(16));
    let rsp = process_command(read(false, 0x40, 16), &mut registers);
    assert_eq!(rsp.data()[0], 16);
    assert_eq!(rsp.data()[15], 14);
    let rsp = process_command(read(true, 0x40, 16), &mut registers);
    assert_eq!(rsp.data()[0..3], [1, 15, 0]);
}

#[test]
fn reading_in_full_loses_nothing() {
    let mut registers = RegisterState::new(version());
    let mut sent: Vec<u8> = Vec::new();
    let mut seen: Vec<u8> = Vec::new();
    let mut next: u8 = 0;
    for round in 0..20usize {
        for _ in 0..(round * 7) % 13 {
            if registers.add_key(next) {
                sent.push(next);
            }
            next = next.wrapping_add(1);
        }
        let req = read(round % 2 == 1, 0x40, 16);
        let rsp = process_command(req, &mut registers);
        let n = (rsp.data()[0] as usize).min(15);
        seen.extend_from_slice(&rsp.data()[1..1 + n]);
        for _ in 0..round % 3 {
            assert_eq!(process_command(req, &mut registers).data(), rsp.data());
        }
    }
    for alt in [false, true] {
        let rsp = process_command(read(alt, 0x40, 16), &mut registers);
        let n = (rsp.data()[0] as usize).min(15);
        seen.extend_from_slice(&rsp.data()[1..1 + n]);
    }
    assert_eq!(sent, seen);
}

#[test]
fn writes_are_not_supported() {
    let mut registers = RegisterState::new(version());
    assert!(registers.add_key(5));
    for request_type in [
        RequestType::ShortWrite,
        RequestType::ShortWriteAlt,
        RequestType::LongWrite,
        RequestType::LongWriteAlt,
    ] {
        for register in [0x00, 0x01, 0x40, 0x41, 0xFF] {
            let req = Request {
                request_type,
                register,
                length_or_data: 3,
                crc: 0,
            };
            let rsp = process_command(req, &mut registers);
            assert_eq!(rsp.result(), ResponseResult::BadRegister);
            assert!(rsp.data().is_empty());
        }
    }
    let rsp = process_command(read(false, 0x40, 2), &mut registers);
    assert_eq!(rsp.data(), &[1, 5]);
}

#[test]
fn other_registers_are_not_supported() {
    let mut registers = RegisterState::new(version());
    for register in 0..=255u8 {
        if register != 0x00 && register != 0x01 && register != 0x40 {
            let rsp = process_command(read(false, register, 1), &mut registers);
            assert_eq!(rsp.result(), ResponseResult::BadRegister);
        }
    }
}
