//! The guest-facing operations, each as the exchange that carries it.
use vstd::prelude::*;
use crate::channel::{exchange_of, Exchange, Packet, Phase, Reply};
use crate::codec::{
    encode_packet, packet_word, CMD_GETCHAR, CMD_PUTCHAR, CMD_SYSCALL, DEV_CONSOLE, DEV_SYSCALL,
};

verus! {

/// The exchange that sends `word` and ends when the host acknowledges it.
pub open spec fn send_exchange(word: int) -> Exchange {
    exchange_of(Some(word as u64), Reply::Nothing, false)
}

/// The exchange that prints one byte on the console.
pub open spec fn putchar_exchange(ch: u8) -> Exchange {
    send_exchange(packet_word(DEV_CONSOLE, CMD_PUTCHAR, ch as u64))
}

/// The payload that reports exit status `code`: bit 0 marks the exit, the
/// bits above it carry the code.
pub open spec fn exit_word_payload(code: u32) -> int {
    2 * code + 1
}

/// Sends a packet and waits for the host's acknowledgment. The payload is
/// truncated to the payload field.
pub fn send_packet(device: u64, cmd: u64, payload: u64) -> (r: Exchange)
    ensures
        r == send_exchange(packet_word(device, cmd, payload)),
{
    Exchange { reply: Reply::Nothing, once: false, phase: Phase::Start(Some(encode_packet(device, cmd, payload))) }
}

/// Waits for a packet from the host, takes it and clears the from-host word.
pub fn recv_packet() -> (r: Exchange)
    ensures
        r == exchange_of(None, Reply::Any, false),
{
    Exchange { reply: Reply::Any, once: false, phase: Phase::Start(None) }
}

/// Looks once for a packet from the host: ends with none if the from-host
/// word is idle, else takes it and clears the word.
pub fn try_recv_packet() -> (r: Exchange)
    ensures
        r == exchange_of(None, Reply::Any, true),
{
    Exchange { reply: Reply::Any, once: true, phase: Phase::Start(None) }
}

/// The exit payload for status `code`: `(code << 1) | 1`.
pub fn exit_payload(code: u32) -> (r: u64)
    ensures
        r == exit_word_payload(code),
{
    let r = ((code as u64) << 1u64) | 1;
    assert(((code as u64) << 1u64) | 1 == 2 * (code as u64) + 1) by (bit_vector);
    r
}

/// Reports exit status `code` to the host. The driver halts the guest once
/// the exchange completes; the host ends the run.
pub fn exit(code: u32) -> (r: Exchange)
    ensures
        r == send_exchange(packet_word(DEV_SYSCALL, CMD_SYSCALL, exit_word_payload(code) as u64)),
{
    send_packet(DEV_SYSCALL, CMD_SYSCALL, exit_payload(code))
}

/// Prints one byte on the host console.
pub fn putchar(ch: u8) -> (r: Exchange)
    ensures
        r == putchar_exchange(ch),
{
    send_packet(DEV_CONSOLE, CMD_PUTCHAR, ch as u64)
}

/// Asks the host console for one byte and waits for the console reply,
/// dropping packets of other devices and commands. [`reply_char`] gives the
/// byte of the packet it delivers.
pub fn getchar() -> (r: Exchange)
    ensures
        r == exchange_of(
            Some(packet_word(DEV_CONSOLE, CMD_GETCHAR, 0) as u64),
            Reply::Matching { device: DEV_CONSOLE, command: CMD_GETCHAR },
            false,
        ),
{
    Exchange {
        reply: Reply::Matching { device: DEV_CONSOLE, command: CMD_GETCHAR },
        once: false,
        phase: Phase::Start(Some(encode_packet(DEV_CONSOLE, CMD_GETCHAR, 0))),
    }
}

/// Asks the host console for one byte, for a host that marks a real
/// character with the bits of `tag` in the reply payload: console replies
/// without them are dropped like packets of other devices.
pub fn getchar_tagged(tag: u64) -> (r: Exchange)
    ensures
        r == exchange_of(
            Some(packet_word(DEV_CONSOLE, CMD_GETCHAR, 0) as u64),
            Reply::Tagged { device: DEV_CONSOLE, command: CMD_GETCHAR, tag },
            false,
        ),
{
    Exchange {
        reply: Reply::Tagged { device: DEV_CONSOLE, command: CMD_GETCHAR, tag },
        once: false,
        phase: Phase::Start(Some(encode_packet(DEV_CONSOLE, CMD_GETCHAR, 0))),
    }
}

/// The byte that a console reply carries: the low eight bits of its payload.
/// Higher bits, such as a validity tag, are dropped.
pub fn reply_char(packet: Packet) -> (r: u8)
    ensures
        r == packet.payload % 256,
{
    let payload = packet.payload;
    let low = payload & 0xFF;
    assert(payload & 0xFF == payload % 256) by (bit_vector);
    low as u8
}

/// Sends a system call and waits for the host's system-call reply, dropping
/// other packets. The delivered packet's payload is the result.
pub fn syscall(payload: u64) -> (r: Exchange)
    ensures
        r == exchange_of(
            Some(packet_word(DEV_SYSCALL, CMD_SYSCALL, payload) as u64),
            Reply::Matching { device: DEV_SYSCALL, command: CMD_SYSCALL },
            false,
        ),
{
    Exchange {
        reply: Reply::Matching { device: DEV_SYSCALL, command: CMD_SYSCALL },
        once: false,
        phase: Phase::Start(Some(encode_packet(DEV_SYSCALL, CMD_SYSCALL, payload))),
    }
}

/// Sends a system call for a host that never replies: ends with the
/// acknowledgment.
pub fn syscall_no_reply(payload: u64) -> (r: Exchange)
    ensures
        r == send_exchange(packet_word(DEV_SYSCALL, CMD_SYSCALL, payload)),
{
    send_packet(DEV_SYSCALL, CMD_SYSCALL, payload)
}

} // verus!
