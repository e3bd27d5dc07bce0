//! Remote command decoding and telemetry payload encoding.
//!
//! The command server answers a poll with a little-endian payload: one
//! command byte, then arguments that depend on the command.  Telemetry
//! goes the other way as a batch of fixed-size datapoint records behind
//! a small header.  Both directions are plain byte layouts, stated here
//! bit-exactly; floating-point fields (azimuth, altitude, temperature)
//! travel as their raw 32-bit patterns and are only given a numeric
//! meaning outside the verified core.

use vstd::prelude::*;

use crate::lighttracking::MotorAngles;

verus! {

/// What the platform is asked to do.
#[derive(Clone, Copy, Debug, PartialEq, Eq, Structural)]
pub enum CommandType {
    /// Keep doing whatever the previous command asked.
    Nop,
    /// Point at a world position given as azimuth/altitude.
    Location,
    /// Track the brightest direction autonomously.
    LightTracking,
    /// Follow externally supplied angle offsets.
    Follower,
    /// Stop and return to the neutral reference.
    Stop,
}

impl Default for CommandType {
    fn default() -> (r: CommandType)
        ensures
            r == CommandType::Nop,
    {
        CommandType::Nop
    }
}

/// The command of a wire code, if the code is assigned.
pub open spec fn spec_command_of_byte(b: int) -> Option<CommandType> {
    if b == 0 {
        Some(CommandType::Nop)
    } else if b == 1 {
        Some(CommandType::Location)
    } else if b == 2 {
        Some(CommandType::LightTracking)
    } else if b == 3 {
        Some(CommandType::Follower)
    } else if b == 4 {
        Some(CommandType::Stop)
    } else {
        None
    }
}

/// Decodes one command byte; `None` exactly on the unassigned codes
/// (greater than four).
pub fn command_from_byte(b: u8) -> (r: Option<CommandType>)
    ensures
        r == spec_command_of_byte(b as int),
{
    if b == 0 {
        Some(CommandType::Nop)
    } else if b == 1 {
        Some(CommandType::Location)
    } else if b == 2 {
        Some(CommandType::LightTracking)
    } else if b == 3 {
        Some(CommandType::Follower)
    } else if b == 4 {
        Some(CommandType::Stop)
    } else {
        None
    }
}

/// One decoded remote command.  Azimuth and altitude arrive as raw
/// 32-bit float patterns; the verified core never interprets them
/// numerically.
#[derive(Clone, Copy, Debug, PartialEq, Eq, Structural)]
pub struct Command {
    pub command: CommandType,
    pub target_angle_offset_hor: i32,
    pub target_angle_offset_ver: i32,
    pub azimuth_bits: u32,
    pub altitude_bits: u32,
}

/// One telemetry record.  The temperature is a raw 32-bit float
/// pattern; everything else is integral.
#[derive(Clone, Copy, Debug, PartialEq, Eq, Structural)]
pub struct DataPoint {
    pub timestamp: u64,
    pub temperature_bits: u32,
    pub photoresistor: u32,
    pub ir_sensor: u32,
    pub voltage: u32,
    pub current: u32,
    pub power: u32,
}

/// What the control loop must do after one command poll.
#[derive(Clone, Copy, Debug, PartialEq, Eq, Structural)]
pub enum CommandStep {
    /// Keep executing the current command.
    Continue,
    /// A new motion command arrived: re-acquire the light and fix the
    /// session reference frame at the best position found.
    Reacquire,
    /// A new world-position command arrived: re-acquire, then also
    /// capture the world-to-device reference frame from its angles.
    ReacquireLocation,
    /// Stop was requested: leave the command loop and go idle.
    StopSession,
}

/// What one poll outcome does to the current command, and which
/// transition it triggers.  A failed poll or a `Nop` leaves the current
/// command in force; a changed command type triggers the matching
/// (re)initialization; `Stop` ends the session.
pub open spec fn spec_apply_poll(current: Command, received: Option<Command>) -> (
    Command,
    CommandStep,
) {
    match received {
        Option::None => (current, CommandStep::Continue),
        Option::Some(nc) => {
            let step = if nc.command == current.command {
                CommandStep::Continue
            } else {
                match nc.command {
                    CommandType::Nop => CommandStep::Continue,
                    CommandType::Follower => CommandStep::Reacquire,
                    CommandType::LightTracking => CommandStep::Reacquire,
                    CommandType::Location => CommandStep::ReacquireLocation,
                    CommandType::Stop => CommandStep::StopSession,
                }
            };
            let next = if nc.command == CommandType::Nop {
                current
            } else {
                nc
            };
            (next, step)
        },
    }
}

/// Folds one command poll into the control loop: the command that is
/// in force afterwards, and the transition to perform first.
pub fn apply_poll(current: &Command, received: &Option<Command>) -> (r: (Command, CommandStep))
    ensures
        r == spec_apply_poll(*current, *received),
{
    match received {
        Option::None => (*current, CommandStep::Continue),
        Option::Some(nc) => {
            let step = if nc.command == current.command {
                CommandStep::Continue
            } else {
                match nc.command {
                    CommandType::Nop => CommandStep::Continue,
                    CommandType::Follower => CommandStep::Reacquire,
                    CommandType::LightTracking => CommandStep::Reacquire,
                    CommandType::Location => CommandStep::ReacquireLocation,
                    CommandType::Stop => CommandStep::StopSession,
                }
            };
            let next = if nc.command == CommandType::Nop {
                *current
            } else {
                *nc
            };
            (next, step)
        },
    }
}

/// The unsigned value of four little-endian bytes.
pub open spec fn spec_u32_le(b0: u8, b1: u8, b2: u8, b3: u8) -> int {
    b0 + 256 * (b1 + 256 * (b2 + 256 * b3))
}

/// The signed value behind a 32-bit pattern (two's complement).
pub open spec fn spec_i32_of_bits(u: int) -> int {
    if u < 0x8000_0000 {
        u
    } else {
        u - 0x1_0000_0000
    }
}

/// The four little-endian bytes of a 32-bit value.
pub open spec fn spec_le32(v: int) -> Seq<u8> {
    seq![
        (v % 256) as u8,
        (v / 256 % 256) as u8,
        (v / 65536 % 256) as u8,
        (v / 16777216 % 256) as u8,
    ]
}

/// The eight little-endian bytes of a 64-bit value.
pub open spec fn spec_le64(v: int) -> Seq<u8> {
    seq![
        (v % 256) as u8,
        (v / 256 % 256) as u8,
        (v / 65536 % 256) as u8,
        (v / 16777216 % 256) as u8,
        (v / 4294967296 % 256) as u8,
        (v / 1099511627776 % 256) as u8,
        (v / 281474976710656 % 256) as u8,
        (v / 72057594037927936 % 256) as u8,
    ]
}

/// The bit pattern of a signed 32-bit value (two's complement).
pub open spec fn spec_bits_of_i32(v: int) -> int {
    if v >= 0 {
        v
    } else {
        v + 0x1_0000_0000
    }
}

/// Reads an unsigned 32-bit value from four little-endian bytes.
pub fn u32_from_le(b0: u8, b1: u8, b2: u8, b3: u8) -> (r: u32)
    ensures
        r == spec_u32_le(b0, b1, b2, b3),
{
    b0 as u32 + 256 * (b1 as u32) + 65536 * (b2 as u32) + 16777216 * (b3 as u32)
}

/// The signed reading of a 32-bit pattern.
pub fn i32_from_bits(u: u32) -> (r: i32)
    ensures
        r as int == spec_i32_of_bits(u as int),
{
    if u <= 0x7fff_ffff {
        u as i32
    } else {
        -((u32::MAX - u) as i32) - 1
    }
}

/// The 32-bit pattern of a signed value.
pub fn bits_of_i32(v: i32) -> (r: u32)
    ensures
        r as int == spec_bits_of_i32(v as int),
{
    if v >= 0 {
        v as u32
    } else {
        let m = -(v + 1);
        u32::MAX - (m as u32)
    }
}

/// Appends the four little-endian bytes of `v`.
pub fn push_le32(out: &mut Vec<u8>, v: u32)
    ensures
        final(out)@ == old(out)@ + spec_le32(v as int),
{
    out.push((v % 256) as u8);
    out.push((v / 256 % 256) as u8);
    out.push((v / 65536 % 256) as u8);
    out.push((v / 16777216 % 256) as u8);
    proof {
        assert(final(out)@ =~= old(out)@ + spec_le32(v as int));
    }
}

/// Appends the eight little-endian bytes of `v`.
pub fn push_le64(out: &mut Vec<u8>, v: u64)
    ensures
        final(out)@ == old(out)@ + spec_le64(v as int),
{
    out.push((v % 256) as u8);
    out.push((v / 256 % 256) as u8);
    out.push((v / 65536 % 256) as u8);
    out.push((v / 16777216 % 256) as u8);
    out.push((v / 4294967296 % 256) as u8);
    out.push((v / 1099511627776 % 256) as u8);
    out.push((v / 281474976710656 % 256) as u8);
    out.push((v / 72057594037927936 % 256) as u8);
    proof {
        assert(final(out)@ =~= old(out)@ + spec_le64(v as int));
    }
}

/// The payload of one command poll: who is asking and where the
/// platform currently points, relative to its session reference.
pub open spec fn spec_command_request_payload(device_id: int, hor: int, ver: int) -> Seq<u8> {
    spec_le32(device_id) + spec_le32(spec_bits_of_i32(hor)) + spec_le32(spec_bits_of_i32(ver))
}

/// Encodes the twelve-byte command-poll payload.
pub fn encode_command_request_payload(device_id: u32, offset: &MotorAngles) -> (r: Vec<u8>)
    ensures
        r@ == spec_command_request_payload(
            device_id as int,
            offset.motor_hor as int,
            offset.motor_ver as int,
        ),
{
    let mut out: Vec<u8> = Vec::new();
    push_le32(&mut out, device_id);
    push_le32(&mut out, bits_of_i32(offset.motor_hor));
    push_le32(&mut out, bits_of_i32(offset.motor_ver));
    proof {
        assert(out@ =~= spec_command_request_payload(
            device_id as int,
            offset.motor_hor as int,
            offset.motor_ver as int,
        ));
    }
    out
}

/// How long a well-formed command payload is, per command code: one
/// byte for the bare commands, nine for the two that carry two 32-bit
/// arguments.
pub open spec fn spec_expected_command_len(code: int) -> int {
    if code == 1 || code == 3 {
        9
    } else {
        1
    }
}

/// What a command payload decodes to: `None` unless it has at least the
/// command byte, the command byte is assigned, and the length matches
/// that command exactly; otherwise the command with its arguments.
pub open spec fn spec_parse_command(p: Seq<u8>) -> Option<Command> {
    if p.len() < 1 {
        None
    } else {
        match spec_command_of_byte(p[0] as int) {
            None => None,
            Some(c) => {
                if p.len() != spec_expected_command_len(p[0] as int) {
                    None
                } else if c == CommandType::Follower {
                    Some(
                        Command {
                            command: c,
                            target_angle_offset_hor: spec_i32_of_bits(
                                spec_u32_le(p[1], p[2], p[3], p[4]),
                            ) as i32,
                            target_angle_offset_ver: spec_i32_of_bits(
                                spec_u32_le(p[5], p[6], p[7], p[8]),
                            ) as i32,
                            azimuth_bits: 0,
                            altitude_bits: 0,
                        },
                    )
                } else if c == CommandType::Location {
                    Some(
                        Command {
                            command: c,
                            target_angle_offset_hor: 0,
                            target_angle_offset_ver: 0,
                            azimuth_bits: spec_u32_le(p[1], p[2], p[3], p[4]) as u32,
                            altitude_bits: spec_u32_le(p[5], p[6], p[7], p[8]) as u32,
                        },
                    )
                } else {
                    Some(
                        Command {
                            command: c,
                            target_angle_offset_hor: 0,
                            target_angle_offset_ver: 0,
                            azimuth_bits: 0,
                            altitude_bits: 0,
                        },
                    )
                }
            },
        }
    }
}

/// Decodes a command-poll response payload.  Succeeds exactly on the
/// well-formed payloads that `spec_parse_command` accepts.
pub fn parse_command(payload: &Vec<u8>) -> (r: Option<Command>)
    ensures
        r == spec_parse_command(payload@),
{
    if payload.len() < 1 {
        return None;
    }
    let code = payload[0];
    let command = match command_from_byte(code) {
        Some(c) => c,
        None => {
            return None;
        },
    };
    match command {
        CommandType::Follower => {
            if payload.len() != 9 {
                return None;
            }
            let hor_bits = u32_from_le(payload[1], payload[2], payload[3], payload[4]);
            let ver_bits = u32_from_le(payload[5], payload[6], payload[7], payload[8]);
            Some(
                Command {
                    command,
                    target_angle_offset_hor: i32_from_bits(hor_bits),
                    target_angle_offset_ver: i32_from_bits(ver_bits),
                    azimuth_bits: 0,
                    altitude_bits: 0,
                },
            )
        },
        CommandType::Location => {
            if payload.len() != 9 {
                return None;
            }
            let azimuth_bits = u32_from_le(payload[1], payload[2], payload[3], payload[4]);
            let altitude_bits = u32_from_le(payload[5], payload[6], payload[7], payload[8]);
            Some(
                Command {
                    command,
                    target_angle_offset_hor: 0,
                    target_angle_offset_ver: 0,
                    azimuth_bits,
                    altitude_bits,
                },
            )
        },
        _ => {
            if payload.len() != 1 {
                return None;
            }
            Some(
                Command {
                    command,
                    target_angle_offset_hor: 0,
                    target_angle_offset_ver: 0,
                    azimuth_bits: 0,
                    altitude_bits: 0,
                },
            )
        },
    }
}

/// The 36 bytes of one telemetry record: the device, when the record
/// was taken, and the six sensor readings.
pub open spec fn spec_datapoint_bytes(dp: DataPoint, device_id: int) -> Seq<u8> {
    spec_le32(device_id) + spec_le64(dp.timestamp as int) + spec_le32(dp.temperature_bits as int)
        + spec_le32(dp.photoresistor as int) + spec_le32(dp.ir_sensor as int) + spec_le32(
        dp.voltage as int,
    ) + spec_le32(dp.current as int) + spec_le32(dp.power as int)
}

/// The concatenated records of a telemetry batch, in order.
pub open spec fn spec_datapoints_bytes(dps: Seq<DataPoint>, device_id: int) -> Seq<u8>
    decreases dps.len(),
{
    if dps.len() == 0 {
        Seq::empty()
    } else {
        spec_datapoints_bytes(dps.drop_last(), device_id) + spec_datapoint_bytes(
            dps.last(),
            device_id,
        )
    }
}

/// Every batch encodes to exactly 36 bytes per record.
pub proof fn lemma_datapoints_bytes_len(dps: Seq<DataPoint>, device_id: int)
    ensures
        spec_datapoints_bytes(dps, device_id).len() == 36 * dps.len(),
    decreases dps.len(),
{
    if dps.len() > 0 {
        lemma_datapoints_bytes_len(dps.drop_last(), device_id);
    }
}

/// A whole telemetry upload payload: the record count, the send time as
/// the receiver's reference for the record timestamps, then the
/// records.
pub open spec fn spec_sensor_data_payload(
    dps: Seq<DataPoint>,
    device_id: int,
    now_unix: int,
) -> Seq<u8> {
    spec_le32(dps.len() as int) + spec_le64(now_unix) + spec_datapoints_bytes(dps, device_id)
}

/// Encodes a telemetry batch for upload.
#[verifier::rlimit(60)]
#[verifier::spinoff_prover]
pub fn encode_sensor_data_payload(datapoints: &Vec<DataPoint>, device_id: u32, now_unix: u64) -> (r:
    Vec<u8>)
    requires
        datapoints.len() <= 1000000,
    ensures
        r@ == spec_sensor_data_payload(datapoints@, device_id as int, now_unix as int),
        r@.len() == 12 + 36 * datapoints@.len(),
{
    let mut out: Vec<u8> = Vec::new();
    push_le32(&mut out, datapoints.len() as u32);
    push_le64(&mut out, now_unix);
    let ghost header = out@;

    let mut k: usize = 0;
    while k < datapoints.len()
        invariant
            k <= datapoints.len(),
            datapoints.len() <= 1000000,
            header == spec_le32(datapoints@.len() as int) + spec_le64(now_unix as int),
            out@ == header + spec_datapoints_bytes(datapoints@.take(k as int), device_id as int),
        decreases datapoints.len() - k,
    {
        let dp = datapoints[k];
        push_le32(&mut out, device_id);
        push_le64(&mut out, dp.timestamp);
        push_le32(&mut out, dp.temperature_bits);
        push_le32(&mut out, dp.photoresistor);
        push_le32(&mut out, dp.ir_sensor);
        push_le32(&mut out, dp.voltage);
        push_le32(&mut out, dp.current);
        push_le32(&mut out, dp.power);
        k = k + 1;
        proof {
            assert(datapoints@.take(k as int).drop_last() =~= datapoints@.take(k as int - 1));
            assert(out@ =~= header + spec_datapoints_bytes(
                datapoints@.take(k as int),
                device_id as int,
            ));
        }
    }
    proof {
        assert(datapoints@.take(datapoints@.len() as int) =~= datapoints@);
        lemma_datapoints_bytes_len(datapoints@, device_id as int);
    }
    out
}

} // verus!
