//! The error taxonomy shared by the codec, the mixer and the RTMP core.

use vstd::prelude::*;

verus! {

/// What went wrong, by category.
#[derive(Clone, Copy, Debug, PartialEq, Eq, Structural)]
pub enum ErrorKind {
    /// Malformed FLV payload headers, corrupt framing, a stream id other
    /// than zero, or an unknown codec / packet-type byte.
    InvalidData,
    /// An unexpected RTMP message where the dialog demands a specific one.
    ProtocolViolation,
    /// Truncated input where more bytes were required.
    Io,
    /// A timestamp that does not fit the signed 32-bit FLV timeline.
    Overflow,
    /// A connection refused because the connection cap was reached.
    CapExceeded,
}

/// The error type returned by the mixer and by the codec's parsers.
#[derive(Clone, Copy, Debug, PartialEq, Eq, Structural)]
pub struct MixerError {
    pub kind: ErrorKind,
}

impl MixerError {
    /// A diagnostic line for logs; one fixed message per kind.
    pub fn message(&self) -> (r: String)
        ensures
            self.kind == ErrorKind::InvalidData ==> r@ == "corrupted or unsupported input"@,
            self.kind == ErrorKind::ProtocolViolation ==> r@ == "unexpected RTMP message"@,
            self.kind == ErrorKind::Io ==> r@ == "input ended too early"@,
            self.kind == ErrorKind::Overflow ==> r@ == "timestamp out of range"@,
            self.kind == ErrorKind::CapExceeded ==> r@ == "too many connections"@,
    {
        match self.kind {
            ErrorKind::InvalidData => String::from_str("corrupted or unsupported input"),
            ErrorKind::ProtocolViolation => String::from_str("unexpected RTMP message"),
            ErrorKind::Io => String::from_str("input ended too early"),
            ErrorKind::Overflow => String::from_str("timestamp out of range"),
            ErrorKind::CapExceeded => String::from_str("too many connections"),
        }
    }
}

} // verus!
