//! The set-time command: 64 bytes, the last of them a checksum.
//!
//! | offset | field                                   |
//! |--------|-----------------------------------------|
//! | 0      | report id, always 1                     |
//! | 1      | command id, always 3                    |
//! | 2..6   | timestamp, 32 bits, big-endian          |
//! | 6..63  | reserved, zero                          |
//! | 63     | checksum of bytes 0..63, seeded with 0  |

use crate::checksum::{crc8, crc8_am, lemma_crc8_self_check};
use crate::clock::{device_timestamp, WallClock};
use crate::error::SyncError;
use vstd::prelude::*;
use vstd::slice::slice_subrange;

verus! {

/// The length of a command, and of the buffer a reply is read into.
pub const PACKET_LEN: usize = 64;

/// The first byte of every command.
pub const REPORT_ID: u8 = 1;

/// The second byte of the set-time command.
pub const SET_TIME_COMMAND: u8 = 3;

/// Where the checksum stands: it covers every byte before it.
pub const CHECKSUM_OFFSET: usize = 63;

/// The 32 bits of a timestamp that fit into the command: its value modulo
/// `2^32`.
pub open spec fn wire_timestamp(timestamp: i64) -> u32 {
    (timestamp as int % 0x1_0000_0000) as u32
}

/// The four bytes of `value`, most significant first.
pub open spec fn be_bytes(value: u32) -> Seq<u8> {
    seq![
        (value / 0x100_0000) as u8,
        (value / 0x1_0000 % 0x100) as u8,
        (value / 0x100 % 0x100) as u8,
        (value % 0x100) as u8,
    ]
}

/// The number whose big-endian bytes are the first four of `bytes`.
pub open spec fn be_value(bytes: Seq<u8>) -> int {
    bytes[0] * 0x100_0000 + bytes[1] * 0x1_0000 + bytes[2] * 0x100 + bytes[3]
}

/// The 63 bytes that the checksum covers.
pub open spec fn packet_body(timestamp: u32) -> Seq<u8> {
    seq![REPORT_ID, SET_TIME_COMMAND] + be_bytes(timestamp) + Seq::new(57, |i: int| 0u8)
}

/// The whole command for a timestamp.
pub open spec fn packet_bytes(timestamp: u32) -> Seq<u8> {
    packet_body(timestamp).push(crc8(packet_body(timestamp), 0))
}

/// The command for the reading `now`, if the reading has a timestamp.
pub open spec fn message_bytes(now: WallClock, am_pm: bool) -> Option<Seq<u8>> {
    match now.device_time(am_pm) {
        Some(timestamp) => Some(packet_bytes(wire_timestamp(timestamp))),
        None => None,
    }
}

/// What every set-time command looks like, whatever time it carries.
pub open spec fn is_set_time_packet(bytes: Seq<u8>) -> bool {
    &&& bytes.len() == PACKET_LEN
    &&& bytes[0] == REPORT_ID
    &&& bytes[1] == SET_TIME_COMMAND
    &&& forall|i: int| 6 <= i < 63 ==> bytes[i] == 0
    &&& bytes[63] == crc8(bytes.subrange(0, 63), 0)
}

/// The timestamp a command carries.
pub open spec fn packet_timestamp(bytes: Seq<u8>) -> int {
    be_value(bytes.subrange(2, 6))
}

/// The four bytes of `value`, most significant first.
pub fn timestamp_bytes(value: u32) -> (bytes: [u8; 4])
    ensures
        bytes@ == be_bytes(value),
{
    let b0 = ((value >> 24) & 0xFF) as u8;
    let b1 = ((value >> 16) & 0xFF) as u8;
    let b2 = ((value >> 8) & 0xFF) as u8;
    let b3 = (value & 0xFF) as u8;
    assert(((value >> 24) & 0xFF) as u8 == (value / 0x100_0000) as u8) by (bit_vector);
    assert(((value >> 16) & 0xFF) as u8 == (value / 0x1_0000 % 0x100) as u8) by (bit_vector);
    assert(((value >> 8) & 0xFF) as u8 == (value / 0x100 % 0x100) as u8) by (bit_vector);
    assert((value & 0xFF) as u8 == (value % 0x100) as u8) by (bit_vector);
    let bytes = [b0, b1, b2, b3];
    assert(bytes@ =~= be_bytes(value));
    bytes
}

/// Builds the command that sets the keyboard's clock to `timestamp`. Only
/// the low 32 bits of the timestamp are sent.
pub fn packet_for_timestamp(timestamp: i64) -> (packet: [u8; 64])
    ensures
        packet@ == packet_bytes(wire_timestamp(timestamp)),
        is_set_time_packet(packet@),
        packet_timestamp(packet@) == wire_timestamp(timestamp),
{
    let wire = #[verifier::truncate] (timestamp as u32);
    assert(wire == wire_timestamp(timestamp)) by (bit_vector)
        requires
            wire == timestamp as u32,
    ;
    let stamp = timestamp_bytes(wire);
    let mut buff: [u8; 64] = [0; 64];
    buff[0] = REPORT_ID;
    buff[1] = SET_TIME_COMMAND;
    buff[2] = stamp[0];
    buff[3] = stamp[1];
    buff[4] = stamp[2];
    buff[5] = stamp[3];
    assert(buff@.subrange(0, 63) =~= packet_body(wire));
    let sum = crc8_am(slice_subrange(buff.as_slice(), 0, CHECKSUM_OFFSET), 0);
    buff[CHECKSUM_OFFSET] = sum;
    proof {
        assert(buff@ =~= packet_bytes(wire));
        lemma_packet_bytes(wire);
    }
    buff
}

/// Builds the set-time command for the wall-clock reading `now`. In
/// twelve-hour mode (`am_pm`) the hour is sent as the display shows it.
///
/// Fails with `ClockFailure` exactly when the reading has no timestamp,
/// which no valid reading of a supported year does.
pub fn get_message(now: &WallClock, am_pm: bool) -> (message: Result<[u8; 64], SyncError>)
    ensures
        match message {
            Ok(packet) => message_bytes(*now, am_pm) == Some(packet@) && is_set_time_packet(
                packet@,
            ),
            Err(error) => message_bytes(*now, am_pm) is None && error == SyncError::ClockFailure,
        },
        now.is_supported() ==> message is Ok,
        !now.is_valid() ==> message is Err,
        !am_pm ==> match now.zone_time() {
            Some(timestamp) => message is Ok && message->Ok_0@.subrange(2, 6) == be_bytes(
                wire_timestamp(timestamp),
            ),
            None => message is Err,
        },
{
    match device_timestamp(now, am_pm) {
        Some(timestamp) => {
            let packet = packet_for_timestamp(timestamp);
            proof {
                lemma_packet_bytes(wire_timestamp(timestamp));
            }
            Ok(packet)
        },
        None => Err(SyncError::ClockFailure),
    }
}

/// Four bytes and the number they spell determine each other.
pub proof fn lemma_be_round_trip(value: u32)
    ensures
        be_bytes(value).len() == 4,
        be_value(be_bytes(value)) == value,
{
    assert(value == (value / 0x100_0000) * 0x100_0000 + (value / 0x1_0000 % 0x100) * 0x1_0000
        + (value / 0x100 % 0x100) * 0x100 + value % 0x100) by (bit_vector);
    assert(value / 0x100_0000 < 0x100) by (bit_vector);
}

/// The command for a timestamp has the fixed header, the timestamp in its
/// place, zeros after it and a checksum that covers all of that.
pub proof fn lemma_packet_bytes(timestamp: u32)
    ensures
        is_set_time_packet(packet_bytes(timestamp)),
        packet_bytes(timestamp).subrange(2, 6) == be_bytes(timestamp),
        packet_timestamp(packet_bytes(timestamp)) == timestamp,
{
    let bytes = packet_bytes(timestamp);
    assert(bytes.subrange(0, 63) =~= packet_body(timestamp));
    assert(bytes.subrange(2, 6) =~= be_bytes(timestamp));
    lemma_be_round_trip(timestamp);
}

/// The checksum of a whole command, its last byte included, is zero.
pub proof fn lemma_packet_checks_out(timestamp: u32)
    ensures
        crc8(packet_bytes(timestamp), 0) == 0,
{
    lemma_crc8_self_check(packet_body(timestamp), 0);
}

/// A well-formed command is the command for the timestamp it carries: the
/// layout leaves nothing else free.
pub proof fn lemma_packet_unique(bytes: Seq<u8>)
    requires
        is_set_time_packet(bytes),
    ensures
        0 <= packet_timestamp(bytes) <= u32::MAX,
        bytes == packet_bytes(packet_timestamp(bytes) as u32),
{
    let b0 = bytes[2];
    let b1 = bytes[3];
    let b2 = bytes[4];
    let b3 = bytes[5];
    let stamp = bytes.subrange(2, 6);
    assert(stamp[0] == b0 && stamp[1] == b1 && stamp[2] == b2 && stamp[3] == b3);
    let value = packet_timestamp(bytes);
    assert(0 <= value <= u32::MAX);
    let v = value as u32;
    assert(v == b0 as u32 * 0x100_0000 + b1 as u32 * 0x1_0000 + b2 as u32 * 0x100 + b3 as u32);
    assert({
        &&& (v / 0x100_0000) as u8 == b0
        &&& (v / 0x1_0000 % 0x100) as u8 == b1
        &&& (v / 0x100 % 0x100) as u8 == b2
        &&& (v % 0x100) as u8 == b3
    }) by (bit_vector)
        requires
            v == b0 as u32 * 0x100_0000 + b1 as u32 * 0x1_0000 + b2 as u32 * 0x100 + b3 as u32,
    ;
    assert(bytes.subrange(0, 63) =~= packet_body(v));
    assert(bytes =~= packet_bytes(v));
}

} // verus!
