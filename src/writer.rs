//! Console text output as a sequence of one-byte console writes.
use vstd::prelude::*;
use vstd::string::StringSliceAdditionalSpecFns;
use crate::channel::Exchange;
use crate::ops::{putchar, putchar_exchange};

verus! {

/// Writes text on the host console, one byte at a time.
#[derive(Clone, Copy, Debug, PartialEq, Eq, Structural)]
pub struct DebugWriter;

/// The console writes that print `bytes`, in order.
pub open spec fn putchar_exchanges(bytes: Seq<u8>) -> Seq<Exchange> {
    bytes.map_values(|b: u8| putchar_exchange(b))
}

impl DebugWriter {
    /// The exchanges that print the bytes of `s`, in order.
    pub fn write_str(&mut self, s: &str) -> (r: Vec<Exchange>)
        ensures
            r@ == putchar_exchanges(s.spec_bytes()),
            *final(self) == *old(self),
    {
        debug_write(s.as_bytes())
    }

    /// The exchange that prints `c`, cut to its low eight bits.
    pub fn write_char(&mut self, c: char) -> (r: Exchange)
        ensures
            r == putchar_exchange((c as u32 % 256) as u8),
            *final(self) == *old(self),
    {
        let code = c as u32;
        let low = code & 0xFF;
        assert(code & 0xFF == code % 256) by (bit_vector);
        putchar(low as u8)
    }
}

/// The exchanges that print `buf`, in order.
pub fn debug_write(buf: &[u8]) -> (r: Vec<Exchange>)
    ensures
        r@ == putchar_exchanges(buf@),
{
    let mut out: Vec<Exchange> = Vec::new();
    let mut i: usize = 0;
    while i < buf.len()
        invariant
            i <= buf@.len(),
            out@ == putchar_exchanges(buf@.subrange(0, i as int)),
        decreases buf@.len() - i,
    {
        out.push(putchar(buf[i]));
        proof {
            assert(buf@.subrange(0, i + 1) == buf@.subrange(0, i as int).push(buf@[i as int]));
        }
        i = i + 1;
    }
    assert(buf@.subrange(0, buf@.len() as int) == buf@);
    out
}

} // verus!
