//! The failure taxonomy of the correlation core and the typed view of a
//! protocol error buffer.

use vstd::prelude::*;
use crate::wire::{u16_at, u32_at};

verus! {

/// Error code of a core protocol `Request` error.
pub const BAD_REQUEST: u8 = 1;

/// Error code of a core protocol `Value` error.
pub const BAD_VALUE: u8 = 2;

/// Error code of a core protocol `Window` error.
pub const BAD_WINDOW: u8 = 3;

/// Error code of a core protocol `Match` error.
pub const BAD_MATCH: u8 = 8;

/// Error code of a core protocol `Drawable` error.
pub const BAD_DRAWABLE: u8 = 9;

/// Error code of a core protocol `Alloc` error.
pub const BAD_ALLOC: u8 = 11;

/// A protocol error as delivered by the server: the server rejected a
/// checked request.
#[derive(Clone, Copy, PartialEq, Eq, Structural, Debug)]
pub struct ProtocolError {
    pub error_code: u8,
    pub sequence: u16,
    pub bad_value: u32,
    pub minor_opcode: u16,
    pub major_opcode: u8,
}

/// Every failure surfaced by the correlation core.
#[derive(Clone, Copy, PartialEq, Eq, Structural, Debug)]
pub enum XError {
    /// The server rejected a checked request.
    Protocol(ProtocolError),
    /// The extension is absent from the server, or has not been resolved on
    /// this connection; the request was not transmitted.
    ExtensionNotPresent,
    /// The connection is closed; terminal for the connection.
    Transport,
    /// A received buffer's declared length is inconsistent with its actual
    /// bytes; fatal for the connection.
    Malformed,
    /// The cookie does not correspond to a request pending on this
    /// connection: it was already resolved once, or was issued elsewhere.
    StaleCookie,
}

/// The fields of an error buffer (first byte zero, 32 bytes in all).
pub open spec fn error_of(s: Seq<u8>) -> ProtocolError {
    ProtocolError {
        error_code: s[1],
        sequence: u16_at(s, 2),
        bad_value: u32_at(s, 4),
        minor_opcode: u16_at(s, 8),
        major_opcode: s[10],
    }
}

impl ProtocolError {
    /// Reads the fields out of a delivered error buffer.
    pub fn parse(buf: &Vec<u8>) -> (r: ProtocolError)
        requires
            buf@.len() >= 32,
        ensures
            r == error_of(buf@),
    {
        let n = buf.len();
        ProtocolError {
            error_code: buf[1],
            sequence: crate::wire::read_u16_le(buf, 2),
            bad_value: crate::wire::read_u32_le(buf, 4),
            minor_opcode: crate::wire::read_u16_le(buf, 8),
            major_opcode: buf[10],
        }
    }
}

} // verus!
