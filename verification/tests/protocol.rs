use suntracker::coap::{CoapClient, RecvAction};
use suntracker::command::{
    apply_poll, bits_of_i32, command_from_byte, encode_command_request_payload,
    encode_sensor_data_payload, i32_from_bits, parse_command, u32_from_le, Command, CommandStep,
    CommandType, DataPoint,
};
use suntracker::lighttracking::MotorAngles;

#[test]
fn le_helpers_round_trip() {
    assert_eq!(u32_from_le(0x78, 0x56, 0x34, 0x12), 0x12345678);
    assert_eq!(i32_from_bits(0x0000_0005), 5);
    assert_eq!(i32_from_bits(0xffff_fffb), -5);
    assert_eq!(i32_from_bits(0x8000_0000), i32::MIN);
    assert_eq!(bits_of_i32(-1), 0xffff_ffff);
    assert_eq!(bits_of_i32(i32::MIN), 0x8000_0000);
    assert_eq!(i32_from_bits(bits_of_i32(-123456)), -123456);
}

#[test]
fn command_bytes_decode_by_their_wire_code() {
    assert_eq!(command_from_byte(0), Some(CommandType::Nop));
    assert_eq!(command_from_byte(1), Some(CommandType::Location));
    assert_eq!(command_from_byte(2), Some(CommandType::LightTracking));
    assert_eq!(command_from_byte(3), Some(CommandType::Follower));
    assert_eq!(command_from_byte(4), Some(CommandType::Stop));
    assert_eq!(command_from_byte(5), None);
    assert_eq!(command_from_byte(255), None);
}

#[test]
fn parse_command_accepts_exactly_the_well_formed_payloads() {
    assert_eq!(parse_command(&vec![]), None);
    assert_eq!(parse_command(&vec![5]), None);
    assert_eq!(
        parse_command(&vec![0]),
        Some(Command {
            command: CommandType::Nop,
            target_angle_offset_hor: 0,
            target_angle_offset_ver: 0,
            azimuth_bits: 0,
            altitude_bits: 0,
        })
    );
    // A bare command must not carry arguments.
    assert_eq!(parse_command(&vec![0, 1]), None);
    // A follower command must carry exactly two 32-bit offsets.
    assert_eq!(parse_command(&vec![3, 1, 2, 3]), None);
}

#[test]
fn parse_command_reads_follower_offsets_little_endian() {
    // hor = 0x00000102 = 258, ver = -5.
    let payload = vec![3, 0x02, 0x01, 0x00, 0x00, 0xfb, 0xff, 0xff, 0xff];
    let cmd = parse_command(&payload).unwrap();
    assert_eq!(cmd.command, CommandType::Follower);
    assert_eq!(cmd.target_angle_offset_hor, 258);
    assert_eq!(cmd.target_angle_offset_ver, -5);
    assert_eq!(cmd.azimuth_bits, 0);
}

#[test]
fn parse_command_keeps_location_angles_as_raw_bit_patterns() {
    let azimuth = 1.25f32.to_bits();
    let altitude = (-0.5f32).to_bits();
    let mut payload = vec![1];
    payload.extend_from_slice(&azimuth.to_le_bytes());
    payload.extend_from_slice(&altitude.to_le_bytes());
    let cmd = parse_command(&payload).unwrap();
    assert_eq!(cmd.command, CommandType::Location);
    assert_eq!(f32::from_bits(cmd.azimuth_bits), 1.25);
    assert_eq!(f32::from_bits(cmd.altitude_bits), -0.5);
    assert_eq!(cmd.target_angle_offset_hor, 0);
}

#[test]
fn command_request_payload_is_twelve_little_endian_bytes() {
    let offset = MotorAngles { motor_hor: 258, motor_ver: -5 };
    let payload = encode_command_request_payload(0xAABBCCDD, &offset);
    assert_eq!(
        payload,
        vec![
            0xDD, 0xCC, 0xBB, 0xAA, // device id
            0x02, 0x01, 0x00, 0x00, // hor = 258
            0xfb, 0xff, 0xff, 0xff, // ver = -5
        ]
    );
}

#[test]
fn sensor_data_payload_lays_out_header_and_records() {
    let dp = DataPoint {
        timestamp: 0x0102030405060708,
        temperature_bits: 21.5f32.to_bits(),
        photoresistor: 777,
        ir_sensor: 888,
        voltage: 3300,
        current: 150,
        power: 495,
    };
    let payload = encode_sensor_data_payload(&vec![dp], 7, 0x1122334455667788);
    assert_eq!(payload.len(), 12 + 36);
    // Record count.
    assert_eq!(&payload[0..4], &1u32.to_le_bytes());
    // Send-time reference.
    assert_eq!(&payload[4..12], &0x1122334455667788u64.to_le_bytes());
    // The record: device id, timestamp, then the six readings.
    assert_eq!(&payload[12..16], &7u32.to_le_bytes());
    assert_eq!(&payload[16..24], &0x0102030405060708u64.to_le_bytes());
    assert_eq!(&payload[24..28], &21.5f32.to_le_bytes());
    assert_eq!(&payload[28..32], &777u32.to_le_bytes());
    assert_eq!(&payload[32..36], &888u32.to_le_bytes());
    assert_eq!(&payload[36..40], &3300u32.to_le_bytes());
    assert_eq!(&payload[40..44], &150u32.to_le_bytes());
    assert_eq!(&payload[44..48], &495u32.to_le_bytes());
}

#[test]
fn empty_batch_is_just_the_header() {
    let payload = encode_sensor_data_payload(&vec![], 7, 42);
    assert_eq!(payload.len(), 12);
    assert_eq!(&payload[0..4], &0u32.to_le_bytes());
}

#[test]
fn client_identifiers_advance_and_wrap() {
    let mut c = CoapClient::new();
    assert_eq!(c.token, 0);
    assert_eq!(c.message_id, 0);
    let _ = c.build_request(false, "/command", vec![]);
    assert_eq!(c.token, 1);
    assert_eq!(c.message_id, 1);
    c.token = 0xffff;
    c.message_id = 0xffff;
    let _ = c.build_request(false, "/command", vec![]);
    assert_eq!(c.token, 0);
    assert_eq!(c.message_id, 0);
}

#[test]
fn a_built_request_parses_back_with_its_token_and_payload() {
    // Round trip through the real wire format: what the client builds
    // is a confirmable packet carrying our token, so the classifier
    // recognizes it as the response to a request with the same token,
    // and hands back exactly the payload that went in.
    let mut c = CoapClient::new();
    let offset = MotorAngles { motor_hor: 40, motor_ver: -7 };
    let bytes = c.build_command_request(9, &offset).unwrap();
    match suntracker::coap::handle_packet(c.token, 0x7777, &bytes) {
        RecvAction::Response { payload, ack } => {
            assert_eq!(payload, encode_command_request_payload(9, &offset));
            // The prepared acknowledgement parses as unrelated traffic
            // for a different pending request.
            assert!(matches!(
                suntracker::coap::handle_packet(c.token, 0x7777, &ack),
                RecvAction::Ignored
            ));
        }
        other => panic!("expected a response, got {:?}", other),
    }
}

#[test]
fn an_acknowledgement_with_the_pending_id_is_recognized() {
    let mut c = CoapClient::new();
    let bytes = c.build_command_request(9, &MotorAngles { motor_hor: 0, motor_ver: 0 }).unwrap();
    // Extract the prepared ack for this packet's message id by letting
    // the classifier see the packet as a response first.
    let ack = match suntracker::coap::handle_packet(c.token, 0x7777, &bytes) {
        RecvAction::Response { ack, .. } => ack,
        other => panic!("expected a response, got {:?}", other),
    };
    // The ack carries the request's message id, so against the real
    // pending request it classifies as the matching acknowledgement.
    assert!(matches!(
        suntracker::coap::handle_packet(c.token, c.message_id, &ack),
        RecvAction::AckOnly
    ));
}

#[test]
fn garbage_bytes_are_invalid() {
    assert!(matches!(
        suntracker::coap::handle_packet(1, 1, &vec![0x01, 0x02]),
        RecvAction::Invalid
    ));
}

#[test]
fn a_foreign_token_is_ignored() {
    let mut c = CoapClient::new();
    let bytes = c.build_command_request(9, &MotorAngles { motor_hor: 0, motor_ver: 0 }).unwrap();
    assert!(matches!(
        suntracker::coap::handle_packet(c.token.wrapping_add(5), 0x7777, &bytes),
        RecvAction::Ignored
    ));
}

fn cmd(c: CommandType) -> Command {
    Command {
        command: c,
        target_angle_offset_hor: 0,
        target_angle_offset_ver: 0,
        azimuth_bits: 0,
        altitude_bits: 0,
    }
}

#[test]
fn a_failed_poll_keeps_the_current_command() {
    let (next, step) = apply_poll(&cmd(CommandType::LightTracking), &None);
    assert_eq!(next.command, CommandType::LightTracking);
    assert_eq!(step, CommandStep::Continue);
}

#[test]
fn a_nop_keeps_the_current_command_in_force() {
    let (next, step) = apply_poll(&cmd(CommandType::Follower), &Some(cmd(CommandType::Nop)));
    assert_eq!(next.command, CommandType::Follower);
    assert_eq!(step, CommandStep::Continue);
}

#[test]
fn a_changed_command_triggers_reacquisition() {
    let (next, step) = apply_poll(&cmd(CommandType::Nop), &Some(cmd(CommandType::LightTracking)));
    assert_eq!(next.command, CommandType::LightTracking);
    assert_eq!(step, CommandStep::Reacquire);
    let (next, step) = apply_poll(&cmd(CommandType::Nop), &Some(cmd(CommandType::Location)));
    assert_eq!(next.command, CommandType::Location);
    assert_eq!(step, CommandStep::ReacquireLocation);
}

#[test]
fn a_repeated_command_does_not_reinitialize() {
    let (next, step) = apply_poll(
        &cmd(CommandType::LightTracking),
        &Some(cmd(CommandType::LightTracking)),
    );
    assert_eq!(next.command, CommandType::LightTracking);
    assert_eq!(step, CommandStep::Continue);
}

#[test]
fn stop_ends_the_session() {
    let (_, step) = apply_poll(&cmd(CommandType::LightTracking), &Some(cmd(CommandType::Stop)));
    assert_eq!(step, CommandStep::StopSession);
}

#[test]
fn command_polls_and_bounded_batches_always_encode() {
    let mut c = CoapClient::new();
    assert!(c.build_command_request(7, &MotorAngles { motor_hor: 3, motor_ver: 4 }).is_some());
    let dp = DataPoint {
        timestamp: 1,
        temperature_bits: 2,
        photoresistor: 3,
        ir_sensor: 4,
        voltage: 5,
        current: 6,
        power: 7,
    };
    let batch = vec![dp; 29];
    assert!(c.build_sensor_data_request(&batch, 7, 42).is_some());
}

#[test]
fn default_command_is_nop() {
    assert_eq!(CommandType::default(), CommandType::Nop);
}
