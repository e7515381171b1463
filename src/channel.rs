//! The polling protocol over the two shared words, as a step machine.
//!
//! An [`Exchange`] is one request/response transaction of the channel. The
//! driver that owns the registers asks it for the next access with
//! [`Exchange::step`], performs that access, and passes the value it read
//! (any value after a write) to the next call of `step`, until `step`
//! answers [`Step::Complete`]. Waiting is polling: a phase that waits for a
//! register to change asks for the same read again.
//!
//! Only one exchange may be in flight at a time. Two drivers that run
//! exchanges side by side without mutual exclusion can both observe an idle
//! to-host word and both write it, so one request is overwritten.
use vstd::prelude::*;
use crate::registers::RegisterPair;
use crate::codec::{
    packet_fields, packet_word, decode_packet, encode_packet, CMD_GETCHAR, CMD_PUTCHAR,
    CMD_SYSCALL, DEV_CONSOLE, DEV_SYSCALL,
};

verus! {

/// A decoded packet.
#[derive(Clone, Copy, Debug, PartialEq, Eq, Structural)]
pub struct Packet {
    /// Routing field: which sub-channel the packet addresses.
    pub device: u64,
    /// Operation within the device.
    pub command: u64,
    /// Operation argument or result.
    pub payload: u64,
}

/// The packet that a word carries.
pub open spec fn packet_of(word: u64) -> Packet {
    let (device, command, payload) = packet_fields(word);
    Packet { device, command, payload }
}

/// One access to the shared words.
#[derive(Clone, Copy, Debug, PartialEq, Eq, Structural)]
pub enum Access {
    /// Read the to-host word.
    ReadToHost,
    /// Write the to-host word.
    WriteToHost(u64),
    /// Read the from-host word.
    ReadFromHost,
    /// Write the from-host word.
    WriteFromHost(u64),
}

/// Which reply, if any, an exchange waits for once its request is acknowledged.
#[derive(Clone, Copy, Debug, PartialEq, Eq, Structural)]
pub enum Reply {
    /// No reply: the exchange ends with the acknowledgment.
    Nothing,
    /// The first packet that arrives.
    Any,
    /// The first packet with this device and command; others are dropped.
    Matching { device: u64, command: u64 },
    /// The first packet with this device and command whose payload has every
    /// bit of `tag` set; others are dropped.
    Tagged { device: u64, command: u64, tag: u64 },
}

/// Where an exchange stands.
#[derive(Clone, Copy, Debug, PartialEq, Eq, Structural)]
pub enum Phase {
    /// Nothing done yet; the request word to send, if any.
    Start(Option<u64>),
    /// Polling the to-host word until it is idle, then this word is written.
    AwaitIdle(u64),
    /// The request has just been written.
    Written,
    /// Polling the to-host word until the host clears it.
    AwaitAck,
    /// Polling the from-host word for a packet.
    AwaitReply,
    /// A packet was taken from the from-host word, which is being cleared.
    Received(Packet),
    /// The exchange is over, with the packet it delivers, if any.
    Finished(Option<Packet>),
}

/// What the driver does next.
#[derive(Clone, Copy, Debug, PartialEq, Eq, Structural)]
pub enum Step {
    /// Perform this access and report what it read.
    Perform(Access),
    /// The exchange is over, with the packet it delivers, if any.
    Complete(Option<Packet>),
}

/// One transaction of the channel.
#[derive(Clone, Copy, Debug, PartialEq, Eq, Structural)]
pub struct Exchange {
    /// The reply awaited after the request.
    pub reply: Reply,
    /// When set, an empty from-host word ends the exchange with no packet
    /// instead of being polled again.
    pub once: bool,
    /// Progress so far.
    pub phase: Phase,
}

/// Whether the awaited reply takes this packet.
pub open spec fn accepts(reply: Reply, packet: Packet) -> bool {
    match reply {
        Reply::Nothing => false,
        Reply::Any => true,
        Reply::Matching { device, command } => packet.device == device && packet.command == command,
        Reply::Tagged { device, command, tag } => packet.device == device && packet.command == command
            && packet.payload & tag == tag,
    }
}

/// An exchange that sends `word` and then awaits `reply`.
pub open spec fn exchange_of(word: Option<u64>, reply: Reply, once: bool) -> Exchange {
    Exchange { reply, once, phase: Phase::Start(word) }
}

impl Exchange {
    /// The transition once the request, if any, is acknowledged.
    pub open spec fn after_ack(self) -> (Exchange, Step) {
        if self.reply is Nothing {
            (Exchange { phase: Phase::Finished(None), ..self }, Step::Complete(None))
        } else {
            (Exchange { phase: Phase::AwaitReply, ..self }, Step::Perform(Access::ReadFromHost))
        }
    }

    /// The transition from the current phase, given the value that the last
    /// access read.
    pub open spec fn next(self, seen: u64) -> (Exchange, Step) {
        match self.phase {
            Phase::Start(Some(word)) => (
                Exchange { phase: Phase::AwaitIdle(word), ..self },
                Step::Perform(Access::ReadToHost),
            ),
            Phase::Start(None) => self.after_ack(),
            Phase::AwaitIdle(word) => if seen != 0 {
                (self, Step::Perform(Access::ReadToHost))
            } else {
                (Exchange { phase: Phase::Written, ..self }, Step::Perform(Access::WriteToHost(word)))
            },
            Phase::Written => (
                Exchange { phase: Phase::AwaitAck, ..self },
                Step::Perform(Access::ReadToHost),
            ),
            Phase::AwaitAck => if seen != 0 {
                (self, Step::Perform(Access::ReadToHost))
            } else {
                self.after_ack()
            },
            Phase::AwaitReply => if seen != 0 {
                (
                    Exchange { phase: Phase::Received(packet_of(seen)), ..self },
                    Step::Perform(Access::WriteFromHost(0)),
                )
            } else if self.once {
                (Exchange { phase: Phase::Finished(None), ..self }, Step::Complete(None))
            } else {
                (self, Step::Perform(Access::ReadFromHost))
            },
            Phase::Received(packet) => if accepts(self.reply, packet) {
                (Exchange { phase: Phase::Finished(Some(packet)), ..self }, Step::Complete(Some(packet)))
            } else {
                (Exchange { phase: Phase::AwaitReply, ..self }, Step::Perform(Access::ReadFromHost))
            },
            Phase::Finished(result) => (self, Step::Complete(result)),
        }
    }

    /// Advances the exchange: `seen` is the value that the access asked for
    /// by the previous step read (ignored after a write and on the first step).
    pub fn step(&mut self, seen: u64) -> (r: Step)
        ensures
            (*final(self), r) == old(self).next(seen),
    {
        match self.phase {
            Phase::Start(Some(word)) => {
                self.phase = Phase::AwaitIdle(word);
                Step::Perform(Access::ReadToHost)
            },
            Phase::Start(None) => self.begin_reply(),
            Phase::AwaitIdle(word) => self.wait_tohost_idle(word, seen),
            Phase::Written => {
                self.phase = Phase::AwaitAck;
                Step::Perform(Access::ReadToHost)
            },
            Phase::AwaitAck => self.wait_tohost_ack(seen),
            Phase::AwaitReply => self.wait_reply(seen),
            Phase::Received(packet) => self.take_reply(packet),
            Phase::Finished(result) => Step::Complete(result),
        }
    }

    /// Polls the to-host word until it is idle, then writes the request.
    fn wait_tohost_idle(&mut self, word: u64, seen: u64) -> (r: Step)
        requires
            old(self).phase == Phase::AwaitIdle(word),
        ensures
            (*final(self), r) == old(self).next(seen),
    {
        if seen != 0 {
            Step::Perform(Access::ReadToHost)
        } else {
            self.phase = Phase::Written;
            Step::Perform(Access::WriteToHost(word))
        }
    }

    /// Polls the to-host word until the host clears it.
    fn wait_tohost_ack(&mut self, seen: u64) -> (r: Step)
        requires
            old(self).phase == Phase::AwaitAck,
        ensures
            (*final(self), r) == old(self).next(seen),
    {
        if seen != 0 {
            Step::Perform(Access::ReadToHost)
        } else {
            self.begin_reply()
        }
    }

    /// Ends the exchange, or starts polling for its reply.
    fn begin_reply(&mut self) -> (r: Step)
        ensures
            (*final(self), r) == old(self).after_ack(),
    {
        if let Reply::Nothing = self.reply {
            self.phase = Phase::Finished(None);
            Step::Complete(None)
        } else {
            self.phase = Phase::AwaitReply;
            Step::Perform(Access::ReadFromHost)
        }
    }

    /// Polls the from-host word; a packet there is decoded and the word cleared.
    fn wait_reply(&mut self, seen: u64) -> (r: Step)
        requires
            old(self).phase == Phase::AwaitReply,
        ensures
            (*final(self), r) == old(self).next(seen),
    {
        if seen != 0 {
            let (device, command, payload) = decode_packet(seen);
            self.phase = Phase::Received(Packet { device, command, payload });
            Step::Perform(Access::WriteFromHost(0))
        } else if self.once {
            self.phase = Phase::Finished(None);
            Step::Complete(None)
        } else {
            Step::Perform(Access::ReadFromHost)
        }
    }

    /// Delivers a received packet that the awaited reply takes, or drops it
    /// and polls again.
    fn take_reply(&mut self, packet: Packet) -> (r: Step)
        requires
            old(self).phase == Phase::Received(packet),
        ensures
            (*final(self), r) == old(self).next(0),
    {
        let taken = match self.reply {
            Reply::Nothing => false,
            Reply::Any => true,
            Reply::Matching { device, command } => packet.device == device && packet.command == command,
            Reply::Tagged { device, command, tag } => packet.device == device && packet.command
                == command && packet.payload & tag == tag,
        };
        if taken {
            self.phase = Phase::Finished(Some(packet));
            Step::Complete(Some(packet))
        } else {
            self.phase = Phase::AwaitReply;
            Step::Perform(Access::ReadFromHost)
        }
    }
}

/// The to-host word is written only with the exchange's own request, and only
/// right after a read of it found it idle.
pub proof fn lemma_request_written_only_when_idle(e: Exchange, seen: u64, word: u64)
    requires
        e.next(seen).1 == Step::Perform(Access::WriteToHost(word)),
    ensures
        e.phase == Phase::AwaitIdle(word),
        seen == 0,
{
}

/// A request exchange ends only on a read that finds the to-host word idle
/// again after its request, so the next exchange finds the channel free; and
/// an exchange waiting to send writes as soon as it reads the word idle.
pub proof fn lemma_send_ends_idle(e: Exchange, seen: u64, result: Option<Packet>)
    requires
        e.phase is AwaitIdle || e.phase is Written || e.phase is AwaitAck,
    ensures
        e.next(seen).1 == Step::Complete(result) ==> e.phase == Phase::AwaitAck && seen == 0,
        (e.phase is AwaitIdle && seen == 0) ==> e.next(seen).1 == Step::Perform(
            Access::WriteToHost(e.phase->AwaitIdle_0),
        ),
{
}

/// The guest writes the from-host word only to clear it, and only after a
/// read of it found a packet.
pub proof fn lemma_from_host_only_cleared(e: Exchange, seen: u64, value: u64)
    requires
        e.next(seen).1 == Step::Perform(Access::WriteFromHost(value)),
    ensures
        value == 0,
        seen != 0,
        e.phase == Phase::AwaitReply,
        e.next(seen).0.phase == Phase::Received(packet_of(seen)),
{
}

/// An exchange delivers only a packet that its awaited reply takes, and only
/// one that it took from the from-host word.
pub proof fn lemma_delivers_only_accepted(e: Exchange, seen: u64, packet: Packet)
    requires
        e.phase !is Finished,
        e.next(seen).1 == Step::Complete(Some(packet)),
    ensures
        accepts(e.reply, packet),
        e.phase == Phase::Received(packet),
{
}

/// A received packet that the awaited reply takes is delivered, never dropped.
pub proof fn lemma_accepted_never_dropped(e: Exchange, seen: u64, packet: Packet)
    requires
        e.phase == Phase::Received(packet),
        accepts(e.reply, packet),
    ensures
        e.next(seen).1 == Step::Complete(Some(packet)),
        e.next(seen).0.phase == Phase::Finished(Some(packet)),
{
}

/// Without mutual exclusion, two exchanges waiting to send can both find the
/// to-host word idle and both write it: the first request is overwritten
/// before the host could take it.
pub proof fn lemma_unserialized_senders_overwrite(
    a: Exchange,
    b: Exchange,
    regs: RegisterPair,
    wa: u64,
    wb: u64,
)
    requires
        a.phase == Phase::AwaitIdle(wa),
        b.phase == Phase::AwaitIdle(wb),
        regs.tohost == 0,
        wa != wb,
    ensures
        ({
            let seen_a = regs.after(Access::ReadToHost).1;
            let seen_b = regs.after(Access::ReadToHost).1;
            let step_a = a.next(seen_a).1;
            let step_b = b.next(seen_b).1;
            &&& step_a == Step::Perform(Access::WriteToHost(wa))
            &&& step_b == Step::Perform(Access::WriteToHost(wb))
            &&& regs.after(Access::WriteToHost(wa)).0.after(Access::WriteToHost(wb)).0.tohost == wb
            &&& regs.after(Access::WriteToHost(wa)).0.after(Access::WriteToHost(wb)).0.tohost != wa
        }),
{
}

} // verus!
