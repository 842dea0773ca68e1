//! Errors that can occur while talking to the sensor.

use vstd::prelude::*;

verus! {

/// An exchange with the sensor fails in exactly one of two ways: the bus
/// itself reported a failure, or the response frame arrived with a
/// checksum that does not match its contents. A frame with a wrong
/// checksum is discarded; no partial data is ever surfaced.
#[derive(Debug)]
pub enum PacketParseError<E> {
    /// The bus transport reported an error; it is wrapped verbatim and
    /// never interpreted.
    BusError(E),
    /// The trailing byte of a response frame does not match the checksum
    /// recomputed over its leading bytes.
    WrongChecksum,
}

impl<E> From<E> for PacketParseError<E> {
    fn from(e: E) -> (r: Self)
        ensures
            r == PacketParseError::BusError(e),
    {
        PacketParseError::BusError(e)
    }
}

impl<E> vstd::std_specs::convert::FromSpecImpl<E> for PacketParseError<E> {
    open spec fn obeys_from_spec() -> bool {
        true
    }

    open spec fn from_spec(e: E) -> Self {
        PacketParseError::BusError(e)
    }
}

impl<E> PacketParseError<E> {
    /// A short label for the error kind, usable in diagnostics.
    pub fn kind(&self) -> (r: &'static str)
        ensures
            self is BusError ==> r@ == "bus error"@,
            self is WrongChecksum ==> r@ == "wrong checksum"@,
    {
        match self {
            PacketParseError::BusError(_) => "bus error",
            PacketParseError::WrongChecksum => "wrong checksum",
        }
    }
}

} // verus!
