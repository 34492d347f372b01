use servo_bus::codec::{
    decode_response, decode_telemetry, encode_multi_read, encode_read, encode_write,
    poll_requests, to_signed, to_unsigned, width_of, RawRegisters, Response, BROADCAST_ID,
    TABLE_LEN, TELEMETRY_LEN, TELEMETRY_REGISTER,
};
use servo_bus::error::CoreError;
use servo_bus::frame::{assemble, parse, Frame, MAX_PARAMS};
use servo_bus::signmag::SignMagnitude;
use servo_bus::telemetry::{is_valid_id, ActuatorTelemetry, TorqueMode, MAX_SERVOS};

fn sample_block() -> Vec<u8> {
    let mut block: Vec<u8> = vec![0; TELEMETRY_LEN];
    block[0] = 1;
    block[1] = 50;
    block[2] = 0x00;
    block[3] = 0x08;
    block[6] = 0xE8;
    block[7] = 0x03;
    block[8] = 0xF4;
    block[9] = 0x01;
    block[15] = 1;
    block[16] = 0xFE;
    block[17] = 0xFF;
    block[18] = 0x32;
    block[19] = 0x80;
    block[20] = 0x32;
    block[21] = 0x04;
    block[22] = 74;
    block[23] = 35;
    block[24] = 2;
    block[25] = 0x21;
    block[29] = 0x2C;
    block[30] = 0x01;
    block
}

fn sample_telemetry() -> ActuatorTelemetry {
    ActuatorTelemetry {
        current_location: -2,
        target_location: 2048,
        current_speed: SignMagnitude { negative: true, magnitude: 50 },
        running_speed: 1000,
        current_load: SignMagnitude { negative: true, magnitude: 50 },
        torque_switch: 1,
        torque_limit: 500,
        acceleration: 50,
        current_voltage: 74,
        current_temperature: 35,
        current_current: 300,
        servo_status: 0x21,
        async_write_flag: 2,
        lock_mark: 1,
    }
}

#[test]
fn read_request_bytes() {
    assert_eq!(
        encode_read(1, 40, 31),
        Ok(vec![0xFF, 0xFF, 0x01, 0x04, 0x02, 0x28, 0x1F, 0xB1])
    );
}

#[test]
fn read_request_rejects_id_zero() {
    assert_eq!(encode_read(0, 40, 31), Err(CoreError::InvalidId));
}

#[test]
fn read_request_rejects_id_beyond_population() {
    assert_eq!(encode_read(MAX_SERVOS as u8 + 1, 40, 31), Err(CoreError::InvalidId));
    assert_eq!(encode_read(BROADCAST_ID, 40, 31), Err(CoreError::InvalidId));
    assert_eq!(encode_read(255, 40, 31), Err(CoreError::InvalidId));
}

#[test]
fn read_request_accepts_every_configured_id() {
    let mut id: u8 = 1;
    while id as usize <= MAX_SERVOS {
        let frame = encode_read(id, 56, 2).unwrap();
        assert_eq!(frame.len(), 8);
        assert_eq!(frame[2], id);
        assert_eq!(parse(&frame).unwrap(), Frame { id, code: 0x02, params: vec![56, 2] });
        id += 1;
    }
}

#[test]
fn valid_ids_are_one_to_population() {
    assert!(!is_valid_id(0));
    assert!(is_valid_id(1));
    assert!(is_valid_id(16));
    assert!(!is_valid_id(17));
}

#[test]
fn write_request_bytes() {
    assert_eq!(
        encode_write(3, 40, &[0]),
        Ok(vec![0xFF, 0xFF, 0x03, 0x04, 0x03, 0x28, 0x00, 0xCD])
    );
}

#[test]
fn write_request_of_several_registers() {
    let frame = encode_write(2, 42, &[0x00, 0x08, 0x00, 0x00, 0xE8, 0x03]).unwrap();
    assert_eq!(
        frame,
        vec![0xFF, 0xFF, 0x02, 0x09, 0x03, 0x2A, 0x00, 0x08, 0x00, 0x00, 0xE8, 0x03, 0xD4]
    );
}

#[test]
fn write_request_rejects_payload_beyond_register_width() {
    assert_eq!(encode_write(1, 70, &[1, 2]), Err(CoreError::PayloadTooLarge));
    assert_eq!(encode_write(1, 71, &[1]), Err(CoreError::PayloadTooLarge));
    assert_eq!(encode_write(1, 255, &[1]), Err(CoreError::PayloadTooLarge));
    let too_long: Vec<u8> = vec![0; 32];
    assert_eq!(encode_write(1, 40, &too_long), Err(CoreError::PayloadTooLarge));
}

#[test]
fn write_request_accepts_payload_of_exactly_the_width() {
    let payload: Vec<u8> = vec![7; 31];
    let frame = encode_write(1, 40, &payload).unwrap();
    assert_eq!(frame.len(), 31 + 1 + 6);
    assert!(encode_write(1, 70, &[9]).is_ok());
    assert!(encode_write(1, 71, &[]).is_ok());
}

#[test]
fn register_widths() {
    assert_eq!(width_of(0), TABLE_LEN);
    assert_eq!(width_of(40), 31);
    assert_eq!(width_of(70), 1);
    assert_eq!(width_of(71), 0);
    assert_eq!(width_of(255), 0);
}

#[test]
fn write_request_does_not_judge_the_id() {
    let frame = encode_write(BROADCAST_ID, 40, &[1]).unwrap();
    assert_eq!(frame[2], BROADCAST_ID);
}

#[test]
fn multi_read_request_bytes() {
    assert_eq!(
        encode_multi_read(1, 3, 40, 31),
        Ok(vec![0xFF, 0xFF, 0xFE, 0x07, 0x82, 0x28, 0x1F, 0x01, 0x02, 0x03, 0x2B])
    );
}

#[test]
fn multi_read_request_rejects_bad_ranges() {
    assert_eq!(encode_multi_read(0, 3, 40, 31), Err(CoreError::InvalidId));
    assert_eq!(encode_multi_read(1, 17, 40, 31), Err(CoreError::InvalidId));
    assert_eq!(encode_multi_read(5, 4, 40, 31), Err(CoreError::InvalidId));
    assert!(encode_multi_read(4, 4, 40, 31).is_ok());
}

#[test]
fn poll_plan_with_multi_read_is_one_frame() {
    let plan = poll_requests(true);
    assert_eq!(plan.len(), 1);
    assert_eq!(
        plan[0],
        encode_multi_read(1, MAX_SERVOS as u8, TELEMETRY_REGISTER, TELEMETRY_LEN as u8).unwrap()
    );
    let frame = parse(&plan[0]).unwrap();
    assert_eq!(frame.id, BROADCAST_ID);
    assert_eq!(frame.params.len(), 2 + MAX_SERVOS);
    assert_eq!(frame.params[2], 1);
    assert_eq!(frame.params[17], 16);
}

#[test]
fn poll_plan_without_multi_read_is_one_frame_per_id() {
    let plan = poll_requests(false);
    assert_eq!(plan.len(), MAX_SERVOS);
    let mut i: usize = 0;
    while i < MAX_SERVOS {
        assert_eq!(
            plan[i],
            encode_read(i as u8 + 1, TELEMETRY_REGISTER, TELEMETRY_LEN as u8).unwrap()
        );
        i += 1;
    }
}

#[test]
fn assemble_rejects_more_parameters_than_a_frame_holds() {
    let params: Vec<u8> = vec![0; MAX_PARAMS + 1];
    assert_eq!(assemble(1, 0, &params), Err(CoreError::PayloadTooLarge));
    let most: Vec<u8> = vec![0; MAX_PARAMS];
    let frame = assemble(1, 0, &most).unwrap();
    assert_eq!(frame.len(), 259);
    assert_eq!(frame[3], 255);
}

#[test]
fn parse_inverts_assemble() {
    let frame = assemble(9, 0x20, &[1, 2, 3, 250]).unwrap();
    assert_eq!(parse(&frame), Ok(Frame { id: 9, code: 0x20, params: vec![1, 2, 3, 250] }));
}

#[test]
fn checksum_wraps_around() {
    let frame = assemble(0xF0, 0xF0, &[0xF0, 0xF0]).unwrap();
    // 0xF0 + 0x04 + 0xF0 + 0xF0 + 0xF0 = 0x3C4, low byte 0xC4, complement 0x3B
    assert_eq!(frame, vec![0xFF, 0xFF, 0xF0, 0x04, 0xF0, 0xF0, 0xF0, 0x3B]);
}

#[test]
fn decode_rejects_short_input() {
    assert_eq!(decode_response(&[]), Err(CoreError::MalformedFrame));
    assert_eq!(decode_response(&[0xFF, 0xFF, 1, 2, 0]), Err(CoreError::MalformedFrame));
}

#[test]
fn decode_rejects_missing_header() {
    assert_eq!(decode_response(&[0xFE, 0xFF, 1, 2, 0, 0xFC]), Err(CoreError::MalformedFrame));
    assert_eq!(decode_response(&[0xFF, 0x00, 1, 2, 0, 0xFC]), Err(CoreError::MalformedFrame));
}

#[test]
fn decode_rejects_wrong_length_byte() {
    assert_eq!(decode_response(&[0xFF, 0xFF, 1, 3, 0, 0xFB]), Err(CoreError::MalformedFrame));
    assert_eq!(
        decode_response(&[0xFF, 0xFF, 1, 2, 0, 0xFC, 0x00]),
        Err(CoreError::MalformedFrame)
    );
}

#[test]
fn decode_rejects_wrong_checksum() {
    assert_eq!(decode_response(&[0xFF, 0xFF, 1, 2, 0, 0xFD]), Err(CoreError::ChecksumMismatch));
    let mut frame = assemble(4, 0, &sample_block()).unwrap();
    frame[10] ^= 0x01;
    assert_eq!(decode_response(&frame), Err(CoreError::ChecksumMismatch));
}

#[test]
fn decode_acknowledgement() {
    assert_eq!(
        decode_response(&[0xFF, 0xFF, 1, 2, 0, 0xFC]),
        Ok(Response::Raw(RawRegisters { id: 1, status: 0, data: vec![] }))
    );
}

#[test]
fn decode_raw_registers() {
    let frame = assemble(7, 0x04, &[0x34, 0x12]).unwrap();
    assert_eq!(
        decode_response(&frame),
        Ok(Response::Raw(RawRegisters { id: 7, status: 0x04, data: vec![0x34, 0x12] }))
    );
}

#[test]
fn decode_telemetry_response() {
    let frame = assemble(4, 0x00, &sample_block()).unwrap();
    assert_eq!(frame.len(), 37);
    assert_eq!(
        decode_response(&frame),
        Ok(Response::Telemetry { id: 4, status: 0, telemetry: sample_telemetry() })
    );
}

#[test]
fn decode_telemetry_block_fields() {
    assert_eq!(decode_telemetry(&sample_block()), Ok(sample_telemetry()));
}

#[test]
fn decode_telemetry_block_of_zeros() {
    let block: Vec<u8> = vec![0; TELEMETRY_LEN];
    assert_eq!(decode_telemetry(&block), Ok(ActuatorTelemetry::zeroed()));
}

#[test]
fn decode_telemetry_rejects_other_lengths() {
    let short: Vec<u8> = vec![0; TELEMETRY_LEN - 1];
    let long: Vec<u8> = vec![0; TELEMETRY_LEN + 1];
    assert_eq!(decode_telemetry(&short), Err(CoreError::MalformedFrame));
    assert_eq!(decode_telemetry(&long), Err(CoreError::MalformedFrame));
    assert_eq!(decode_telemetry(&[]), Err(CoreError::MalformedFrame));
}

#[test]
fn decode_never_panics_on_garbage() {
    let mut seed: u32 = 12345;
    let mut round: u32 = 0;
    while round < 2000 {
        let mut bytes: Vec<u8> = Vec::new();
        seed = seed.wrapping_mul(1103515245).wrapping_add(12345);
        let len: u32 = (seed >> 16) % 48;
        let mut i: u32 = 0;
        while i < len {
            seed = seed.wrapping_mul(1103515245).wrapping_add(12345);
            let b: u8 = if (seed >> 20) % 3 == 0 { 0xFF } else { (seed >> 16) as u8 };
            bytes.push(b);
            i += 1;
        }
        let _ = decode_response(&bytes);
        round += 1;
    }
}

#[test]
fn two_complement_registers() {
    assert_eq!(to_signed(0x0000), 0);
    assert_eq!(to_signed(0x7FFF), 32767);
    assert_eq!(to_signed(0x8000), -32768);
    assert_eq!(to_signed(0xFFFF), -1);
    assert_eq!(to_unsigned(-1), 0xFFFF);
    assert_eq!(to_unsigned(-32768), 0x8000);
    assert_eq!(to_unsigned(2048), 0x0800);
    let mut raw: u32 = 0;
    while raw <= 0xFFFF {
        assert_eq!(to_unsigned(to_signed(raw as u16)), raw as u16);
        raw += 1;
    }
}

#[test]
fn torque_mode_register_values() {
    assert_eq!(TorqueMode::Disabled.register_value(), 0);
    assert_eq!(TorqueMode::Enabled.register_value(), 1);
    assert_eq!(TorqueMode::Stiff.register_value(), 2);
}

#[test]
fn torque_toggle_follows_the_observed_switch() {
    assert_eq!(TorqueMode::toggled(0), TorqueMode::Enabled);
    assert_eq!(TorqueMode::toggled(1), TorqueMode::Disabled);
    assert_eq!(TorqueMode::toggled(2), TorqueMode::Disabled);
    assert_eq!(TorqueMode::toggled(255), TorqueMode::Disabled);
}

#[test]
fn error_messages() {
    assert_eq!(CoreError::InvalidId.message(), "actuator id out of range");
    assert_eq!(CoreError::OutOfRange.message(), "value does not fit its register");
    assert_eq!(CoreError::PayloadTooLarge.message(), "payload exceeds the register width");
    assert_eq!(CoreError::ChecksumMismatch.message(), "response checksum mismatch");
    assert_eq!(CoreError::MalformedFrame.message(), "malformed response frame");
    assert_eq!(CoreError::Timeout.message(), "actuator did not answer in time");
    assert_eq!(CoreError::IoError.message(), "bus i/o error");
    assert_eq!(CoreError::AlreadyRunning.message(), "polling is already running");
    assert_eq!(CoreError::ConfigInvalid.message(), "invalid channel configuration");
    assert_eq!(CoreError::ChannelUnavailable.message(), "channel unavailable");
}
