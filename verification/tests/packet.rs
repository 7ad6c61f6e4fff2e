use am_clock::checksum::crc8_am;
use am_clock::clock::{device_timestamp, display_hour, WallClock, DEVICE_UTC_OFFSET};
use am_clock::error::SyncError;
use am_clock::packet::{
    get_message, packet_for_timestamp, timestamp_bytes, CHECKSUM_OFFSET, PACKET_LEN, REPORT_ID,
    SET_TIME_COMMAND,
};

fn at(year: i32, month: u32, day: u32, hour: u32, minute: u32, second: u32) -> WallClock {
    WallClock { year, month, day, hour, minute, second }
}

fn expected_packet(stamp: [u8; 4], checksum: u8) -> [u8; 64] {
    let mut packet = [0u8; 64];
    packet[0] = 1;
    packet[1] = 3;
    packet[2..6].copy_from_slice(&stamp);
    packet[63] = checksum;
    packet
}

fn assert_invariants(packet: &[u8; 64]) {
    assert_eq!(packet[0], 1);
    assert_eq!(packet[1], 3);
    assert!(packet[6..63].iter().all(|&b| b == 0));
    assert_eq!(packet[63], crc8_am(&packet[0..63], 0));
}

#[test]
fn layout_constants() {
    assert_eq!(PACKET_LEN, 64);
    assert_eq!(REPORT_ID, 1);
    assert_eq!(SET_TIME_COMMAND, 3);
    assert_eq!(CHECKSUM_OFFSET, 63);
    assert_eq!(DEVICE_UTC_OFFSET, 28_800);
}

#[test]
fn timestamp_bytes_are_big_endian() {
    assert_eq!(timestamp_bytes(0x0102_0304), [1, 2, 3, 4]);
    assert_eq!(timestamp_bytes(0), [0, 0, 0, 0]);
    assert_eq!(timestamp_bytes(u32::MAX), [255, 255, 255, 255]);
    assert_eq!(timestamp_bytes(1_705_300_245), [101, 164, 209, 21]);
    assert_eq!(timestamp_bytes(0x8000_0000), [128, 0, 0, 0]);
    assert_eq!(timestamp_bytes(255), [0, 0, 0, 255]);
    assert_eq!(timestamp_bytes(256), [0, 0, 1, 0]);
}

#[test]
fn packet_for_zero_timestamp() {
    let packet = packet_for_timestamp(0);
    assert_eq!(packet, expected_packet([0, 0, 0, 0], 244));
}

#[test]
fn packet_for_known_timestamp() {
    let packet = packet_for_timestamp(1_705_300_245);
    assert_eq!(packet, expected_packet([101, 164, 209, 21], 191));
    assert_eq!(packet_for_timestamp(0x0102_0304)[2..6], [1, 2, 3, 4]);
}

#[test]
fn packet_keeps_the_low_32_bits_of_the_timestamp() {
    assert_eq!(packet_for_timestamp(-28_800), expected_packet([255, 255, 143, 128], 124));
    assert_eq!(packet_for_timestamp(-1)[2..6], [255, 255, 255, 255]);
    assert_eq!(packet_for_timestamp(4_294_967_295), expected_packet([255, 255, 255, 255], 37));
    assert_eq!(packet_for_timestamp(4_294_967_296), expected_packet([0, 0, 0, 0], 244));
    assert_eq!(packet_for_timestamp(7_263_464_767), expected_packet([176, 239, 173, 63], 198));
    assert_eq!(packet_for_timestamp(i64::MIN)[2..6], [0, 0, 0, 0]);
    assert_eq!(packet_for_timestamp(i64::MAX)[2..6], [255, 255, 255, 255]);
}

#[test]
fn packet_invariants_hold_for_many_timestamps() {
    let mut timestamp: i64 = -5_000_000_000;
    while timestamp < 10_000_000_000 {
        assert_invariants(&packet_for_timestamp(timestamp));
        timestamp += 123_456_789;
    }
}

#[test]
fn shown_hour_in_twelve_hour_mode() {
    assert_eq!(display_hour(0, true), 12);
    assert_eq!(display_hour(14, true), 2);
    assert_eq!(display_hour(9, true), 9);
}

#[test]
fn shown_hour_for_every_hour() {
    let twelve = [12, 1, 2, 3, 4, 5, 6, 7, 8, 9, 10, 11, 12, 1, 2, 3, 4, 5, 6, 7, 8, 9, 10, 11];
    for hour in 0..24u32 {
        assert_eq!(display_hour(hour, true), twelve[hour as usize]);
        assert_eq!(display_hour(hour, false), hour);
    }
}

#[test]
fn shown_hour_leaves_other_values_alone() {
    assert_eq!(display_hour(24, true), 24);
    assert_eq!(display_hour(25, true), 25);
    assert_eq!(display_hour(u32::MAX, true), u32::MAX);
    assert_eq!(display_hour(24, false), 24);
}

#[test]
fn timestamp_is_taken_eight_hours_east_of_utc() {
    assert_eq!(device_timestamp(&at(1970, 1, 1, 8, 0, 0), false), Some(0));
    assert_eq!(device_timestamp(&at(1970, 1, 1, 0, 0, 0), false), Some(-28_800));
    assert_eq!(device_timestamp(&at(2024, 1, 15, 14, 30, 45), false), Some(1_705_300_245));
    assert_eq!(device_timestamp(&at(2024, 2, 29, 23, 59, 59), false), Some(1_709_222_399));
    assert_eq!(device_timestamp(&at(2200, 3, 4, 5, 6, 7), false), Some(7_263_464_767));
    assert_eq!(device_timestamp(&at(1960, 6, 1, 12, 0, 0), false), Some(-302_472_000));
}

#[test]
fn timestamp_in_twelve_hour_mode_uses_the_shown_hour() {
    assert_eq!(device_timestamp(&at(2024, 1, 15, 14, 30, 45), true), Some(1_705_257_045));
    assert_eq!(device_timestamp(&at(2024, 1, 15, 2, 30, 45), true), Some(1_705_257_045));
    assert_eq!(device_timestamp(&at(2024, 1, 15, 0, 5, 6), true), Some(1_705_291_506));
    assert_eq!(device_timestamp(&at(2024, 1, 15, 12, 5, 6), true), Some(1_705_291_506));
    assert_eq!(device_timestamp(&at(2024, 1, 15, 9, 0, 0), true), Some(1_705_280_400));
}

#[test]
fn timestamp_of_no_time_is_none() {
    assert_eq!(device_timestamp(&at(2023, 2, 29, 0, 0, 0), false), None);
    assert_eq!(device_timestamp(&at(2024, 2, 30, 0, 0, 0), false), None);
    assert_eq!(device_timestamp(&at(2024, 4, 31, 0, 0, 0), false), None);
    assert_eq!(device_timestamp(&at(2024, 0, 1, 0, 0, 0), false), None);
    assert_eq!(device_timestamp(&at(2024, 13, 1, 0, 0, 0), false), None);
    assert_eq!(device_timestamp(&at(2024, 1, 0, 0, 0, 0), false), None);
    assert_eq!(device_timestamp(&at(2024, 1, 32, 0, 0, 0), false), None);
    assert_eq!(device_timestamp(&at(2024, 1, 1, 24, 0, 0), false), None);
    assert_eq!(device_timestamp(&at(2024, 1, 1, 24, 0, 0), true), None);
    assert_eq!(device_timestamp(&at(2024, 1, 1, 0, 60, 0), false), None);
    assert_eq!(device_timestamp(&at(2024, 1, 1, 0, 0, 60), false), None);
    assert_eq!(device_timestamp(&at(400_000, 1, 1, 0, 0, 0), false), None);
    assert_eq!(device_timestamp(&at(-400_000, 1, 1, 0, 0, 0), false), None);
}

#[test]
fn timestamp_exists_at_the_edges_of_the_supported_years() {
    assert!(device_timestamp(&at(262_141, 12, 31, 23, 59, 59), false).is_some());
    assert!(device_timestamp(&at(-262_142, 1, 1, 0, 0, 0), false).is_some());
    assert!(device_timestamp(&at(2000, 2, 29, 0, 0, 0), false).is_some());
    assert!(device_timestamp(&at(1900, 2, 29, 0, 0, 0), false).is_none());
    assert!(device_timestamp(&at(0, 2, 29, 0, 0, 0), false).is_some());
    assert!(device_timestamp(&at(-4, 2, 29, 0, 0, 0), false).is_some());
}

#[test]
fn message_for_fixed_time_in_24_hour_mode() {
    let message = get_message(&at(2024, 1, 15, 14, 30, 45), false);
    assert_eq!(message, Ok(expected_packet([101, 164, 209, 21], 191)));
}

#[test]
fn message_for_fixed_time_in_twelve_hour_mode() {
    let afternoon = get_message(&at(2024, 1, 15, 14, 30, 45), true);
    assert_eq!(afternoon, Ok(expected_packet([101, 164, 40, 85], 149)));
    let midnight = get_message(&at(2024, 1, 15, 0, 5, 6), true);
    assert_eq!(midnight, Ok(expected_packet([101, 164, 174, 242], 99)));
    let morning = get_message(&at(2024, 1, 15, 9, 0, 0), true);
    assert_eq!(morning, Ok(expected_packet([101, 164, 131, 144], 73)));
    assert_eq!(morning, get_message(&at(2024, 1, 15, 9, 0, 0), false));
}

#[test]
fn message_for_times_outside_32_bits() {
    assert_eq!(
        get_message(&at(1970, 1, 1, 0, 0, 0), false),
        Ok(expected_packet([255, 255, 143, 128], 124))
    );
    assert_eq!(
        get_message(&at(1960, 6, 1, 12, 0, 0), false),
        Ok(expected_packet([237, 248, 164, 192], 247))
    );
    assert_eq!(
        get_message(&at(2106, 2, 7, 14, 28, 16), false),
        Ok(expected_packet([0, 0, 0, 0], 244))
    );
    assert_eq!(
        get_message(&at(2038, 1, 19, 11, 14, 8), false),
        Ok(expected_packet([128, 0, 0, 0], 105))
    );
}

#[test]
fn message_for_no_time_is_a_clock_failure() {
    assert_eq!(get_message(&at(2024, 2, 30, 12, 0, 0), false), Err(SyncError::ClockFailure));
    assert_eq!(get_message(&at(2024, 1, 15, 24, 0, 0), true), Err(SyncError::ClockFailure));
    assert_eq!(get_message(&at(2024, 1, 15, 12, 0, 61), false), Err(SyncError::ClockFailure));
}

#[test]
fn message_invariants_hold_in_both_modes() {
    for hour in 0..24u32 {
        for am_pm in [false, true] {
            let packet = get_message(&at(2023, 12, 31, hour, 59, 58), am_pm).unwrap();
            assert_invariants(&packet);
        }
    }
}

#[test]
fn message_in_twelve_hour_mode_repeats_after_noon() {
    for hour in 1..12u32 {
        let morning = get_message(&at(2023, 12, 31, hour, 0, 0), true);
        let afternoon = get_message(&at(2023, 12, 31, hour + 12, 0, 0), true);
        assert_eq!(morning, afternoon);
        assert!(morning.is_ok());
    }
    assert_eq!(
        get_message(&at(2023, 12, 31, 13, 0, 0), true),
        Ok(expected_packet([101, 144, 76, 144], 252))
    );
    assert_eq!(
        get_message(&at(2023, 12, 31, 13, 0, 0), false),
        Ok(expected_packet([101, 144, 245, 80], 16))
    );
}
