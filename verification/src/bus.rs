//! The transport boundary.
//!
//! The driver depends only on a small capability set: write a frame of
//! bytes to a bus address, read a frame of bytes back, and wait a number
//! of milliseconds. An adapter around a concrete two-wire bus implements
//! [`I2cBus`]; [`ScriptedBus`] is a verified in-memory implementation
//! for exercising the driver without hardware.

use vstd::prelude::*;
use vstd::slice::slice_to_vec;

verus! {

/// A byte-level two-wire bus: write a frame to an address, or read one
/// back. Both operations may fail with a transport-defined error, which
/// the driver wraps and never interprets.
pub trait I2cBus {
    /// The transport's own error type.
    type Error;

    /// Write all of `bytes` to the device at `addr`.
    fn write(&mut self, addr: u8, bytes: &[u8]) -> Result<(), Self::Error>;

    /// Read exactly `buffer.len()` bytes from the device at `addr` into
    /// `buffer`. Whatever the outcome, the buffer keeps its length.
    fn read(&mut self, addr: u8, buffer: &mut Vec<u8>) -> (r: Result<(), Self::Error>)
        ensures
            final(buffer)@.len() == old(buffer)@.len(),
    ;
}

/// A blocking delay: suspend the calling context for at least the
/// requested number of milliseconds.
pub trait Delay {
    /// Block for at least `ms` milliseconds.
    fn delay_ms(&mut self, ms: u16);
}

/// The error of [`ScriptedBus`]: a read was requested but the script
/// held no further response.
#[derive(Debug, Clone, Copy, PartialEq, Eq, Structural)]
pub struct ScriptExhausted;

/// An in-memory bus that records every written frame and answers reads
/// from a queue of prepared responses, in order.
pub struct ScriptedBus {
    /// Responses handed out by reads, in order.
    pub responses: Vec<Vec<u8>>,
    /// How many of the responses have been consumed.
    pub consumed: usize,
    /// Every frame written to the bus, in order.
    pub written: Vec<Vec<u8>>,
}

impl ScriptedBus {
    /// An empty script: no responses prepared, nothing written yet.
    pub fn new() -> (r: ScriptedBus)
        ensures
            r.responses@.len() == 0,
            r.consumed == 0,
            r.written@.len() == 0,
    {
        ScriptedBus { responses: Vec::new(), consumed: 0, written: Vec::new() }
    }

    /// Queue one more response for a later read.
    pub fn push_response(&mut self, response: Vec<u8>)
        ensures
            final(self).responses@ == old(self).responses@.push(response),
            final(self).consumed == old(self).consumed,
            final(self).written == old(self).written,
    {
        self.responses.push(response);
    }
}

impl I2cBus for ScriptedBus {
    type Error = ScriptExhausted;

    fn write(&mut self, _addr: u8, bytes: &[u8]) -> Result<(), ScriptExhausted> {
        self.written.push(slice_to_vec(bytes));
        Ok(())
    }

    fn read(&mut self, _addr: u8, buffer: &mut Vec<u8>) -> (r: Result<(), ScriptExhausted>)
        ensures
            final(buffer)@.len() == old(buffer)@.len(),
    {
        if self.consumed >= self.responses.len() {
            return Err(ScriptExhausted);
        }
        let n = self.responses[self.consumed].len();
        let count = if n < buffer.len() { n } else { buffer.len() };
        let mut i: usize = 0;
        while i < count
            invariant
                count <= buffer@.len(),
                count <= self.responses@[self.consumed as int]@.len(),
                self.consumed < self.responses@.len(),
                buffer@.len() == old(buffer)@.len(),
                0 <= i <= count,
            decreases count - i,
        {
            let b = self.responses[self.consumed][i];
            buffer[i] = b;
            i = i + 1;
        }
        self.consumed = self.consumed + 1;
        Ok(())
    }
}

/// A delay that returns immediately, for exercising the driver without
/// hardware.
pub struct NoopDelay;

impl Delay for NoopDelay {
    fn delay_ms(&mut self, _ms: u16) {
    }
}

} // verus!
