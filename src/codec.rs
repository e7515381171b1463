//! Packing of (device, command, payload) into one 64-bit word.
//!
//! Layout, most significant bits first: device in bits 63..56, command in
//! bits 55..48, payload in bits 47..0. Device and command are truncated to
//! eight bits and the payload to 48 bits; truncation is defined behaviour.
//! The all-zero word means "no packet", so the packet (0, 0, 0) cannot be
//! told apart from an idle register.
use vstd::prelude::*;

verus! {

/// Device that carries system calls and the exit notification.
pub const DEV_SYSCALL: u64 = 0x00;
/// Device that carries console input and output.
pub const DEV_CONSOLE: u64 = 0x01;

/// Command of `DEV_SYSCALL`: a system call or exit.
pub const CMD_SYSCALL: u64 = 0x00;
/// Command of `DEV_CONSOLE`: read one character.
pub const CMD_GETCHAR: u64 = 0x00;
/// Command of `DEV_CONSOLE`: write one character.
pub const CMD_PUTCHAR: u64 = 0x01;

/// Position of the device field.
pub const DEV_SHIFT: u64 = 56;
/// Position of the command field.
pub const CMD_SHIFT: u64 = 48;
/// Mask of the payload field (its low 48 bits).
pub const PAYLOAD_MASK: u64 = 0x0000_FFFF_FFFF_FFFF;

/// Weight of the lowest bit of the device field.
pub open spec fn device_unit() -> int {
    0x100_0000_0000_0000
}

/// Weight of the lowest bit of the command field.
pub open spec fn command_unit() -> int {
    0x1_0000_0000_0000
}

/// Number of distinct payloads (2 to the 48th).
pub open spec fn payload_range() -> int {
    0x1_0000_0000_0000
}

/// The word that carries a packet: each field reduced to its width and
/// placed at its weight.
pub open spec fn packet_word(device: u64, command: u64, payload: u64) -> int {
    (device as int % 256) * device_unit() + (command as int % 256) * command_unit()
        + payload as int % payload_range()
}

/// The (device, command, payload) fields that a word carries.
pub open spec fn packet_fields(word: u64) -> (u64, u64, u64) {
    (
        (word as int / device_unit()) as u64,
        ((word as int / command_unit()) % 256) as u64,
        (word as int % payload_range()) as u64,
    )
}

/// Packs a packet into one word.
pub fn encode_packet(device: u64, cmd: u64, payload: u64) -> (r: u64)
    ensures
        r as int == packet_word(device, cmd, payload),
{
    let r = ((device & 0xFF) << DEV_SHIFT) | ((cmd & 0xFF) << CMD_SHIFT) | (payload & PAYLOAD_MASK);
    assert(((device & 0xFF) << 56u64) | ((cmd & 0xFF) << 48u64) | (payload & 0xFFFF_FFFF_FFFFu64)
        == (device % 256) * 0x100_0000_0000_0000u64 + (cmd % 256) * 0x1_0000_0000_0000u64
            + payload % 0x1_0000_0000_0000u64) by (bit_vector);
    r
}

/// Unpacks a word into (device, command, payload). Every word decodes.
pub fn decode_packet(word: u64) -> (r: (u64, u64, u64))
    ensures
        r == packet_fields(word),
{
    let device = (word >> DEV_SHIFT) & 0xFF;
    let cmd = (word >> CMD_SHIFT) & 0xFF;
    let payload = word & PAYLOAD_MASK;
    assert((word >> 56u64) & 0xFF == word / 0x100_0000_0000_0000u64) by (bit_vector);
    assert((word >> 48u64) & 0xFF == (word / 0x1_0000_0000_0000u64) % 256) by (bit_vector);
    assert(word & 0xFFFF_FFFF_FFFFu64 == word % 0x1_0000_0000_0000u64) by (bit_vector);
    (device, cmd, payload)
}

/// Decoding the word of a packet whose fields fit their widths gives the
/// packet back.
pub proof fn lemma_round_trip(device: u64, command: u64, payload: u64)
    requires
        device < 256,
        command < 256,
        (payload as int) < payload_range(),
    ensures
        packet_word(device, command, payload) <= u64::MAX,
        packet_fields(packet_word(device, command, payload) as u64) == (device, command, payload),
{
    lemma_fields_of_word(device, command, payload);
}

/// Whatever the inputs, the decoded payload is the given payload under the
/// payload mask, and device and command keep their low eight bits.
pub proof fn lemma_truncation(device: u64, command: u64, payload: u64)
    ensures
        packet_word(device, command, payload) <= u64::MAX,
        packet_fields(packet_word(device, command, payload) as u64).2 == payload & PAYLOAD_MASK,
        packet_fields(packet_word(device, command, payload) as u64).1 == command & 0xFF,
        packet_fields(packet_word(device, command, payload) as u64).0 == device & 0xFF,
{
    lemma_fields_of_word(device, command, payload);
    assert(payload & 0xFFFF_FFFF_FFFFu64 == payload % 0x1_0000_0000_0000u64) by (bit_vector);
    assert(command & 0xFFu64 == command % 256) by (bit_vector);
    assert(device & 0xFFu64 == device % 256) by (bit_vector);
}

/// For fields within their widths, the word of a packet is zero, the idle
/// value, only for the packet (0, 0, 0).
pub proof fn lemma_zero_word_only_for_zero_packet(device: u64, command: u64, payload: u64)
    requires
        device < 256,
        command < 256,
        (payload as int) < payload_range(),
    ensures
        packet_word(device, command, payload) == 0 <==> (device == 0 && command == 0 && payload == 0),
{
}

/// The fields of the word of any packet are its fields reduced to their widths.
proof fn lemma_fields_of_word(device: u64, command: u64, payload: u64)
    ensures
        packet_word(device, command, payload) <= u64::MAX,
        packet_fields(packet_word(device, command, payload) as u64) == (
            (device % 256) as u64,
            (command % 256) as u64,
            (payload as int % payload_range()) as u64,
        ),
{
    let d = device as int % 256;
    let c = command as int % 256;
    let p = payload as int % payload_range();
    let w = packet_word(device, command, payload);
    assert(w == d * device_unit() + c * command_unit() + p);
    assert(0 <= d < 256 && 0 <= c < 256 && 0 <= p < payload_range());
    assert(w <= u64::MAX) by (nonlinear_arith)
        requires
            w == d * 0x100_0000_0000_0000 + c * 0x1_0000_0000_0000 + p,
            0 <= d < 256,
            0 <= c < 256,
            0 <= p < 0x1_0000_0000_0000,
    ;
    assert(w / device_unit() == d && (w / command_unit()) % 256 == c && w % payload_range() == p)
        by (nonlinear_arith)
        requires
            w == d * 0x100_0000_0000_0000 + c * 0x1_0000_0000_0000 + p,
            0 <= d < 256,
            0 <= c < 256,
            0 <= p < 0x1_0000_0000_0000,
    {
        assert(w == (d * 256 + c) * 0x1_0000_0000_0000 + p);
        assert(w / 0x1_0000_0000_0000 == d * 256 + c);
        assert(w == d * 0x100_0000_0000_0000 + (c * 0x1_0000_0000_0000 + p));
    }
}

} // verus!
