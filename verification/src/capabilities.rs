//! Capability contracts the driver needs from its host platform: a
//! blocking byte-stream transport, digital output lines, and a
//! millisecond delay.  Concrete implementations are supplied by the
//! platform and injected when the driver is constructed.

use vstd::prelude::*;
use vstd::pervasive::arbitrary;

verus! {

/// A blocking byte-stream transport to the module.
///
/// Two ghost views describe the stream: `transmitted()` is every byte the
/// transport has accepted for sending so far (oldest first), `pending()`
/// is the bytes still waiting to be received (next byte first).
pub trait SerialPort {
    /// Every byte accepted for transmission so far, oldest first.
    open spec fn transmitted(&self) -> Seq<u8> {
        arbitrary()
    }

    /// Bytes waiting to be received, next byte first.
    open spec fn pending(&self) -> Seq<u8> {
        arbitrary()
    }

    /// Transmit one byte, blocking until the transport accepts it.
    /// An error means the byte was not accepted; the stream is unchanged.
    fn write_byte(&mut self, byte: u8) -> (r: Result<(), ()>)
        ensures
            final(self).pending() == old(self).pending(),
            r is Ok ==> final(self).transmitted() == old(self).transmitted().push(byte),
            r is Err ==> final(self).transmitted() == old(self).transmitted(),
    ;

    /// Receive one byte.  Blocking: the call returns only once a byte
    /// has arrived, retrying transient per-byte failures inside the
    /// implementation, indefinitely by default and for an unbounded
    /// time.  That retry policy is deliberate: on the bare-metal target
    /// nothing else is there to run.
    fn read_byte(&mut self) -> (b: u8)
        ensures
            old(self).pending().len() >= 1,
            b == old(self).pending()[0],
            final(self).pending() == old(self).pending().skip(1),
            final(self).transmitted() == old(self).transmitted(),
    ;
}

/// A digital output line.  `is_high()` is the level the line is driven
/// to; after a failed drive the level is unknown.
pub trait OutputPin {
    /// Whether the line is currently driven high.
    open spec fn is_high(&self) -> bool {
        arbitrary()
    }

    /// Drive the line low.
    fn set_low(&mut self) -> (r: Result<(), ()>)
        ensures
            r is Ok ==> !final(self).is_high(),
    ;

    /// Drive the line high.
    fn set_high(&mut self) -> (r: Result<(), ()>)
        ensures
            r is Ok ==> final(self).is_high(),
    ;
}

/// A blocking millisecond-granularity delay source.
pub trait DelayMs {
    /// Block the calling context for at least `ms` milliseconds.
    fn delay_ms(&mut self, ms: u16);
}

} // verus!
