use htif::codec::{
    decode_packet, encode_packet, CMD_GETCHAR, CMD_PUTCHAR, CMD_SYSCALL, DEV_CONSOLE, DEV_SYSCALL,
    PAYLOAD_MASK,
};
use htif::ops::exit_payload;

#[test]
fn encode_places_fields() {
    assert_eq!(encode_packet(0x01, 0x01, 0x41), 0x0101_0000_0000_0041);
    assert_eq!(encode_packet(0xAB, 0xCD, 0x1234_5678_9ABC), 0xABCD_1234_5678_9ABC);
}

#[test]
fn decode_splits_fields() {
    assert_eq!(decode_packet(0xABCD_1234_5678_9ABC), (0xAB, 0xCD, 0x1234_5678_9ABC));
    assert_eq!(decode_packet(u64::MAX), (0xFF, 0xFF, PAYLOAD_MASK));
}

#[test]
fn round_trip_within_widths() {
    let cases: [(u64, u64, u64); 6] = [
        (0, 0, 1),
        (DEV_CONSOLE, CMD_PUTCHAR, 0x41),
        (DEV_SYSCALL, CMD_SYSCALL, 11),
        (0xFF, 0xFF, PAYLOAD_MASK),
        (0x12, 0x00, 0),
        (0x00, 0x34, 0x8000_0000_0000),
    ];
    for (d, c, p) in cases {
        assert_eq!(decode_packet(encode_packet(d, c, p)), (d, c, p));
    }
}

#[test]
fn payload_wider_than_field_is_masked() {
    let p: u64 = 0xFFFF_FFFF_FFFF_FFFF;
    assert_eq!(decode_packet(encode_packet(DEV_CONSOLE, CMD_GETCHAR, p)).2, p & PAYLOAD_MASK);
    let q: u64 = 0x0001_0000_0000_0042;
    assert_eq!(decode_packet(encode_packet(DEV_CONSOLE, CMD_PUTCHAR, q)), (DEV_CONSOLE, CMD_PUTCHAR, 0x42));
}

#[test]
fn device_and_command_wider_than_field_are_masked() {
    assert_eq!(decode_packet(encode_packet(0x1FF, 0x302, 5)), (0xFF, 0x02, 5));
}

#[test]
fn zero_word_only_for_zero_packet() {
    assert_eq!(encode_packet(0, 0, 0), 0);
    assert_ne!(encode_packet(1, 0, 0), 0);
    assert_ne!(encode_packet(0, 1, 0), 0);
    assert_ne!(encode_packet(0, 0, 1), 0);
    // Every syscall-device packet with a zero payload collides with idle.
    assert_eq!(encode_packet(DEV_SYSCALL, CMD_SYSCALL, 0), 0);
}

#[test]
fn exit_payload_marks_bit_zero() {
    assert_eq!(exit_payload(0), 1);
    assert_eq!(exit_payload(5), 11);
    assert_eq!(exit_payload(127), 255);
    assert_eq!(exit_payload(u32::MAX), 0x1_FFFF_FFFF);
}
