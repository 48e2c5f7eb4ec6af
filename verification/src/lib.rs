//! Client-side core of the X11 extension protocol: little-endian wire
//! primitives, cursors over packed record lists, request cookies with
//! exactly-once reply/error resolution, event decoding and synthesis, and a
//! per-connection extension opcode registry.

pub mod wire;
pub mod cursor;
pub mod error;
pub mod connection;
pub mod xproto;
pub mod shm;
pub mod bigreq;
pub mod dri2;
pub mod xv;
