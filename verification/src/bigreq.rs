//! The BIG-REQUESTS extension: one request that enables extended-length
//! encoding and reports the maximum request length the server accepts.

#![allow(non_snake_case)]

use vstd::prelude::*;
use crate::connection::{Connection, Cookie, PendingKind};
use crate::error::XError;
use crate::wire::{u16_le, u32_at, push_u16_le, read_u32_le};

verus! {

/// Name under which the server knows the extension: `BIG-REQUESTS`.
pub open spec fn extension_name() -> Seq<u8> {
    seq![
        0x42u8, 0x49u8, 0x47u8, 0x2du8, 0x52u8, 0x45u8, 0x51u8, 0x55u8, 0x45u8, 0x53u8, 0x54u8,
        0x53u8,
    ]
}

/// The extension's name as a byte string, for the opcode registry.
pub fn name() -> (r: Vec<u8>)
    ensures
        r@ == extension_name(),
{
    let mut out: Vec<u8> = Vec::new();
    out.push(0x42u8);
    out.push(0x49u8);
    out.push(0x47u8);
    out.push(0x2du8);
    out.push(0x52u8);
    out.push(0x45u8);
    out.push(0x51u8);
    out.push(0x55u8);
    out.push(0x45u8);
    out.push(0x53u8);
    out.push(0x54u8);
    out.push(0x53u8);
    proof {
        assert(out@ =~= extension_name());
    }
    out
}

/// Opcode for the enable request.
pub const XCB_BIG_REQUESTS_ENABLE: u8 = 0;

/// Wire encoding of the enable request under a negotiated major opcode.
pub open spec fn enable_bytes(major: u8) -> Seq<u8> {
    seq![major, XCB_BIG_REQUESTS_ENABLE] + u16_le(1)
}

/// Correlation handle of an enable request.
#[derive(Clone, Copy, PartialEq, Eq, Structural, Debug)]
pub struct EnableCookie {
    pub base: Cookie,
}

/// The reply to an enable request; owns its buffer.
#[derive(Debug)]
pub struct EnableReply {
    pub bytes: Vec<u8>,
}

impl EnableReply {
    /// The buffer holds at least the fixed reply header.
    pub open spec fn wf(self) -> bool {
        self.bytes@.len() >= 32
    }

    /// Maximum request length the server accepts, in 4-byte units.
    pub fn maximum_request_length(&self) -> (r: u32)
        requires
            self.wf(),
        ensures
            r == u32_at(self.bytes@, 8),
    {
        read_u32_le(&self.bytes, 8)
    }
}

/// Builds and transmits the enable request.
fn issue_enable(c: &mut Connection, checked: bool) -> (r: Result<EnableCookie, XError>)
    requires
        old(c).wf(),
        old(c)@.next_seq < u64::MAX,
    ensures
        final(c).wf(),
        old(c)@.ext_request_outcome(
            final(c)@,
            match r {
                Ok(ck) => Ok(ck.base),
                Err(e) => Err(e),
            },
            extension_name(),
            PendingKind::Reply { checked },
            enable_bytes(old(c)@.ext_major(extension_name())),
        ),
{
    let n = name();
    let info = match c.extension_info(&n) {
        Some(i) => i,
        None => {
            return Err(XError::ExtensionNotPresent);
        },
    };
    let mut out: Vec<u8> = Vec::new();
    out.push(info.major_opcode);
    out.push(XCB_BIG_REQUESTS_ENABLE);
    push_u16_le(&mut out, 1);
    proof {
        assert(out@ =~= enable_bytes(info.major_opcode));
    }
    match c.issue_request(PendingKind::Reply { checked }, out) {
        Ok(ck) => Ok(EnableCookie { base: ck }),
        Err(e) => Err(e),
    }
}

/// Issues a checked enable request: a protocol error for it surfaces at
/// resolution.
pub fn Enable(c: &mut Connection) -> (r: Result<EnableCookie, XError>)
    requires
        old(c).wf(),
        old(c)@.next_seq < u64::MAX,
    ensures
        final(c).wf(),
        old(c)@.ext_request_outcome(
            final(c)@,
            match r {
                Ok(ck) => Ok(ck.base),
                Err(e) => Err(e),
            },
            extension_name(),
            PendingKind::Reply { checked: true },
            enable_bytes(old(c)@.ext_major(extension_name())),
        ),
{
    issue_enable(c, true)
}

/// Issues an unchecked enable request: a protocol error for it goes to the
/// out-of-band stream only.
pub fn EnableUnchecked(c: &mut Connection) -> (r: Result<EnableCookie, XError>)
    requires
        old(c).wf(),
        old(c)@.next_seq < u64::MAX,
    ensures
        final(c).wf(),
        old(c)@.ext_request_outcome(
            final(c)@,
            match r {
                Ok(ck) => Ok(ck.base),
                Err(e) => Err(e),
            },
            extension_name(),
            PendingKind::Reply { checked: false },
            enable_bytes(old(c)@.ext_major(extension_name())),
        ),
{
    issue_enable(c, false)
}

impl EnableCookie {
    /// Redeems the cookie for the enable reply once it has been delivered.
    pub fn resolve(&self, c: &mut Connection) -> (r: Result<Option<EnableReply>, XError>)
        requires
            old(c).wf(),
        ensures
            final(c).wf(),
            ({
                let (c2, rr) = old(c)@.spec_try_resolve(self.base);
                final(c)@ == c2 && match (r, rr) {
                    (Ok(Some(rep)), Ok(Some(sb))) => rep.bytes@ == sb && rep.wf(),
                    (Ok(None), Ok(None)) => true,
                    (Err(e), Err(se)) => e == se,
                    _ => false,
                }
            }),
    {
        match c.try_resolve(&self.base) {
            Ok(Some(b)) => Ok(Some(EnableReply { bytes: b })),
            Ok(None) => Ok(None),
            Err(e) => Err(e),
        }
    }
}

} // verus!
