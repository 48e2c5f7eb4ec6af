//! The DRI2 extension: direct-rendering buffer management. One builder per
//! protocol request, one record type per protocol-defined structure, one
//! decoder per event kind.

#![allow(non_snake_case)]

use vstd::prelude::*;
use crate::connection::{Connection, Cookie, VoidCookie, PendingKind, ExtensionInfo};
use crate::cursor::FixedCursor;
use crate::error::XError;
use crate::wire::{
    u16_le, u32_le, u16_at, u32_at, u32_list_le, push_u16_le, push_u32_le, push_u32_list,
    read_u16_le, read_u32_le,
};
use crate::xproto;

verus! {

/// Name under which the server knows the extension: `DRI2`.
pub open spec fn extension_name() -> Seq<u8> {
    seq![0x44u8, 0x52u8, 0x49u8, 0x32u8]
}

/// The extension's name as a byte string, for the opcode registry.
pub fn name() -> (r: Vec<u8>)
    ensures
        r@ == extension_name(),
{
    let mut out: Vec<u8> = Vec::new();
    out.push(0x44u8);
    out.push(0x52u8);
    out.push(0x49u8);
    out.push(0x32u8);
    proof {
        assert(out@ =~= extension_name());
    }
    out
}

pub type xcb_dri2_attachment_t = u32;

pub const XCB_DRI2_ATTACHMENT_BUFFER_FRONT_LEFT: xcb_dri2_attachment_t = 1;

pub const XCB_DRI2_ATTACHMENT_BUFFER_BACK_LEFT: xcb_dri2_attachment_t = 2;

pub const XCB_DRI2_ATTACHMENT_BUFFER_FRONT_RIGHT: xcb_dri2_attachment_t = 3;

pub const XCB_DRI2_ATTACHMENT_BUFFER_BACK_RIGHT: xcb_dri2_attachment_t = 4;

pub const XCB_DRI2_ATTACHMENT_BUFFER_DEPTH: xcb_dri2_attachment_t = 5;

pub const XCB_DRI2_ATTACHMENT_BUFFER_STENCIL: xcb_dri2_attachment_t = 6;

pub const XCB_DRI2_ATTACHMENT_BUFFER_ACCUM: xcb_dri2_attachment_t = 7;

pub const XCB_DRI2_ATTACHMENT_BUFFER_FAKE_FRONT_LEFT: xcb_dri2_attachment_t = 8;

pub const XCB_DRI2_ATTACHMENT_BUFFER_FAKE_FRONT_RIGHT: xcb_dri2_attachment_t = 9;

pub const XCB_DRI2_ATTACHMENT_BUFFER_DEPTH_STENCIL: xcb_dri2_attachment_t = 10;

pub const XCB_DRI2_ATTACHMENT_BUFFER_HIZ: xcb_dri2_attachment_t = 11;

pub type xcb_dri2_driver_type_t = u32;

pub const XCB_DRI2_DRIVER_TYPE_DRI: xcb_dri2_driver_type_t = 1;

pub const XCB_DRI2_DRIVER_TYPE_VDPAU: xcb_dri2_driver_type_t = 2;

pub type xcb_dri2_event_type_t = u32;

pub const XCB_DRI2_EVENT_TYPE_EXCHANGE_COMPLETE: xcb_dri2_event_type_t = 1;

pub const XCB_DRI2_EVENT_TYPE_BLIT_COMPLETE: xcb_dri2_event_type_t = 2;

pub const XCB_DRI2_EVENT_TYPE_FLIP_COMPLETE: xcb_dri2_event_type_t = 3;

/// Extension-relative opcode for the version query.
pub const XCB_DRI2_QUERY_VERSION: u8 = 0;

/// Extension-relative opcode for the connect request.
pub const XCB_DRI2_CONNECT: u8 = 1;

/// Extension-relative opcode for the authenticate request.
pub const XCB_DRI2_AUTHENTICATE: u8 = 2;

/// Extension-relative opcode for drawable creation.
pub const XCB_DRI2_CREATE_DRAWABLE: u8 = 3;

/// Extension-relative opcode for drawable destruction.
pub const XCB_DRI2_DESTROY_DRAWABLE: u8 = 4;

/// Extension-relative opcode for the buffer query.
pub const XCB_DRI2_GET_BUFFERS: u8 = 5;

/// Extension-relative opcode for the region copy.
pub const XCB_DRI2_COPY_REGION: u8 = 6;

/// Extension-relative opcode for the format-qualified buffer query.
pub const XCB_DRI2_GET_BUFFERS_WITH_FORMAT: u8 = 7;

/// Extension-relative opcode for the buffer swap.
pub const XCB_DRI2_SWAP_BUFFERS: u8 = 8;

/// Extension-relative opcode for the media-stamp counter query.
pub const XCB_DRI2_GET_MSC: u8 = 9;

/// Extension-relative opcode for the media-stamp counter wait.
pub const XCB_DRI2_WAIT_MSC: u8 = 10;

/// Extension-relative opcode for the swap-count wait.
pub const XCB_DRI2_WAIT_SBC: u8 = 11;

/// Extension-relative opcode for setting the swap interval.
pub const XCB_DRI2_SWAP_INTERVAL: u8 = 12;

/// Extension-relative opcode for the parameter query.
pub const XCB_DRI2_GET_PARAM: u8 = 13;

/// Extension-relative code of the buffer-swap-complete event.
pub const XCB_DRI2_BUFFER_SWAP_COMPLETE: u8 = 0;

/// Extension-relative code of the invalidate-buffers event.
pub const XCB_DRI2_INVALIDATE_BUFFERS: u8 = 1;

/// One exported rendering buffer: a 20-byte record of five 32-bit words.
#[derive(Clone, Copy, PartialEq, Eq, Structural, Debug)]
pub struct Dri2Buffer {
    pub attachment: u32,
    pub name: u32,
    pub pitch: u32,
    pub cpp: u32,
    pub flags: u32,
}

/// Size of a [`Dri2Buffer`] record on the wire.
pub const DRI2_BUFFER_SIZE: usize = 20;

/// The buffer record stored at offset `off` of `s`.
pub open spec fn dri2_buffer_at(s: Seq<u8>, off: int) -> Dri2Buffer {
    Dri2Buffer {
        attachment: u32_at(s, off),
        name: u32_at(s, off + 4),
        pitch: u32_at(s, off + 8),
        cpp: u32_at(s, off + 12),
        flags: u32_at(s, off + 16),
    }
}

impl Dri2Buffer {
    /// Reads the record stored at offset `off`.
    pub fn parse(b: &Vec<u8>, off: usize) -> (r: Dri2Buffer)
        requires
            off + DRI2_BUFFER_SIZE <= b@.len(),
        ensures
            r == dri2_buffer_at(b@, off as int),
    {
        let n = b.len();
        Dri2Buffer {
            attachment: read_u32_le(b, off),
            name: read_u32_le(b, off + 4),
            pitch: read_u32_le(b, off + 8),
            cpp: read_u32_le(b, off + 12),
            flags: read_u32_le(b, off + 16),
        }
    }

    pub fn attachment(&self) -> (r: u32)
        ensures
            r == self.attachment,
    {
        self.attachment
    }

    pub fn name(&self) -> (r: u32)
        ensures
            r == self.name,
    {
        self.name
    }

    pub fn pitch(&self) -> (r: u32)
        ensures
            r == self.pitch,
    {
        self.pitch
    }

    pub fn cpp(&self) -> (r: u32)
        ensures
            r == self.cpp,
    {
        self.cpp
    }

    pub fn flags(&self) -> (r: u32)
        ensures
            r == self.flags,
    {
        self.flags
    }
}

/// Forward-only iterator over the packed buffer records of a reply.
#[derive(Clone, Copy, PartialEq, Eq, Structural, Debug)]
pub struct Dri2BufferIterator {
    pub cur: FixedCursor,
}

impl Dri2BufferIterator {
    /// The cursor walks whole records inside the buffer `s`.
    pub open spec fn wf_for(self, s: Seq<u8>) -> bool {
        &&& self.cur.wf()
        &&& self.cur.elem == DRI2_BUFFER_SIZE
        &&& self.cur.limit <= s.len()
    }

    /// How many records remain.
    pub fn remaining(&self) -> (r: usize)
        ensures
            r == self.cur.rem,
    {
        self.cur.rem
    }

    /// Yields the next record by value, or reports exhaustion.
    pub fn next(&mut self, b: &Vec<u8>) -> (r: Option<Dri2Buffer>)
        requires
            old(self).wf_for(b@),
        ensures
            final(self).wf_for(b@),
            match r {
                Some(rec) => {
                    &&& old(self).cur.rem > 0
                    &&& final(self).cur == old(self).cur.advance()
                    &&& rec == dri2_buffer_at(b@, old(self).cur.off as int)
                },
                None => old(self).cur.rem == 0 && *final(self) == *old(self),
            },
    {
        match self.cur.next() {
            Some(start) => Some(Dri2Buffer::parse(b, start)),
            None => None,
        }
    }
}

/// An attachment paired with its requested format: an 8-byte record of two
/// 32-bit words.
#[derive(Clone, Copy, PartialEq, Eq, Structural, Debug)]
pub struct AttachFormat {
    pub attachment: u32,
    pub format: u32,
}

/// Size of an [`AttachFormat`] record on the wire.
pub const ATTACH_FORMAT_SIZE: usize = 8;

/// The wire bytes of one attach-format record.
pub open spec fn attach_format_le(a: AttachFormat) -> Seq<u8> {
    u32_le(a.attachment) + u32_le(a.format)
}

/// The wire bytes of a packed attach-format list.
pub open spec fn attach_format_list_le(xs: Seq<AttachFormat>) -> Seq<u8> {
    Seq::new((8 * xs.len()) as nat, |i: int| attach_format_le(xs[i / 8])[i % 8])
}

/// The attach-format record stored at offset `off` of `s`.
pub open spec fn attach_format_at(s: Seq<u8>, off: int) -> AttachFormat {
    AttachFormat { attachment: u32_at(s, off), format: u32_at(s, off + 4) }
}

impl AttachFormat {
    /// Reads the record stored at offset `off`.
    pub fn parse(b: &Vec<u8>, off: usize) -> (r: AttachFormat)
        requires
            off + ATTACH_FORMAT_SIZE <= b@.len(),
        ensures
            r == attach_format_at(b@, off as int),
    {
        let n = b.len();
        AttachFormat { attachment: read_u32_le(b, off), format: read_u32_le(b, off + 4) }
    }

    pub fn attachment(&self) -> (r: u32)
        ensures
            r == self.attachment,
    {
        self.attachment
    }

    pub fn format(&self) -> (r: u32)
        ensures
            r == self.format,
    {
        self.format
    }
}

/// Appends the wire bytes of each attach-format record in order.
fn push_attach_format_list(out: &mut Vec<u8>, xs: &Vec<AttachFormat>)
    ensures
        final(out)@ == old(out)@ + attach_format_list_le(xs@),
{
    let n = xs.len();
    let mut k: usize = 0;
    while k < n
        invariant
            k <= n,
            n == xs@.len(),
            out@ == old(out)@ + attach_format_list_le(xs@.subrange(0, k as int)),
        decreases n - k,
    {
        push_u32_le(out, xs[k].attachment);
        push_u32_le(out, xs[k].format);
        proof {
            let pre = xs@.subrange(0, k as int);
            let post = xs@.subrange(0, (k + 1) as int);
            assert forall|i: int| 0 <= i < 8 * post.len() implies attach_format_list_le(post)[i]
                == (attach_format_list_le(pre) + attach_format_le(xs@[k as int]))[i] by {
                assert(post[i / 8] == xs@[i / 8]);
                if i / 8 < k {
                    assert(pre[i / 8] == xs@[i / 8]);
                }
            }
            assert(attach_format_list_le(post) =~= attach_format_list_le(pre)
                + attach_format_le(xs@[k as int]));
            assert(out@ =~= old(out)@ + attach_format_list_le(post));
        }
        k = k + 1;
    }
    proof {
        assert(xs@.subrange(0, n as int) =~= xs@);
    }
}

/// Forward-only iterator over packed attach-format records.
#[derive(Clone, Copy, PartialEq, Eq, Structural, Debug)]
pub struct AttachFormatIterator {
    pub cur: FixedCursor,
}

impl AttachFormatIterator {
    /// The cursor walks whole records inside the buffer `s`.
    pub open spec fn wf_for(self, s: Seq<u8>) -> bool {
        &&& self.cur.wf()
        &&& self.cur.elem == ATTACH_FORMAT_SIZE
        &&& self.cur.limit <= s.len()
    }

    /// How many records remain.
    pub fn remaining(&self) -> (r: usize)
        ensures
            r == self.cur.rem,
    {
        self.cur.rem
    }

    /// Yields the next record by value, or reports exhaustion.
    pub fn next(&mut self, b: &Vec<u8>) -> (r: Option<AttachFormat>)
        requires
            old(self).wf_for(b@),
        ensures
            final(self).wf_for(b@),
            match r {
                Some(rec) => {
                    &&& old(self).cur.rem > 0
                    &&& final(self).cur == old(self).cur.advance()
                    &&& rec == attach_format_at(b@, old(self).cur.off as int)
                },
                None => old(self).cur.rem == 0 && *final(self) == *old(self),
            },
    {
        match self.cur.next() {
            Some(start) => Some(AttachFormat::parse(b, start)),
            None => None,
        }
    }
}

/// The cached mapping of this extension, or the failure owed when it is
/// unresolved or absent.
fn lookup(c: &Connection) -> (r: Result<ExtensionInfo, XError>)
    ensures
        match r {
            Ok(i) => c@.ext_info(extension_name()) == Some(i),
            Err(e) => e == XError::ExtensionNotPresent && c@.ext_info(extension_name()) is None,
        },
{
    let n = name();
    match c.extension_info(&n) {
        Some(i) => Ok(i),
        None => Err(XError::ExtensionNotPresent),
    }
}

/// Wire encoding of the version query.
pub open spec fn query_version_bytes(major: u8, major_version: u32, minor_version: u32) -> Seq<
    u8,
> {
    seq![major, XCB_DRI2_QUERY_VERSION] + u16_le(3) + u32_le(major_version) + u32_le(minor_version)
}

/// Wire encoding of the connect request.
pub open spec fn connect_bytes(major: u8, window: u32, driver_type: u32) -> Seq<u8> {
    seq![major, XCB_DRI2_CONNECT] + u16_le(3) + u32_le(window) + u32_le(driver_type)
}

/// Wire encoding of the authenticate request.
pub open spec fn authenticate_bytes(major: u8, window: u32, magic: u32) -> Seq<u8> {
    seq![major, XCB_DRI2_AUTHENTICATE] + u16_le(3) + u32_le(window) + u32_le(magic)
}

/// Wire encoding of drawable creation.
pub open spec fn create_drawable_bytes(major: u8, drawable: u32) -> Seq<u8> {
    seq![major, XCB_DRI2_CREATE_DRAWABLE] + u16_le(2) + u32_le(drawable)
}

/// Wire encoding of drawable destruction.
pub open spec fn destroy_drawable_bytes(major: u8, drawable: u32) -> Seq<u8> {
    seq![major, XCB_DRI2_DESTROY_DRAWABLE] + u16_le(2) + u32_le(drawable)
}

/// Wire encoding of the buffer query: fixed fields then the packed
/// attachment list, whose length the 16-bit word count carries.
pub open spec fn get_buffers_bytes(
    major: u8,
    drawable: u32,
    count: u32,
    attachments: Seq<u32>,
) -> Seq<u8> {
    seq![major, XCB_DRI2_GET_BUFFERS] + u16_le((3 + attachments.len()) as u16) + u32_le(drawable)
        + u32_le(count) + u32_list_le(attachments)
}

/// Wire encoding of the region copy.
pub open spec fn copy_region_bytes(
    major: u8,
    drawable: u32,
    region: u32,
    dest: u32,
    src: u32,
) -> Seq<u8> {
    seq![major, XCB_DRI2_COPY_REGION] + u16_le(5) + u32_le(drawable) + u32_le(region) + u32_le(dest)
        + u32_le(src)
}

/// Wire encoding of the format-qualified buffer query.
pub open spec fn get_buffers_with_format_bytes(
    major: u8,
    drawable: u32,
    count: u32,
    attachments: Seq<AttachFormat>,
) -> Seq<u8> {
    seq![major, XCB_DRI2_GET_BUFFERS_WITH_FORMAT] + u16_le((3 + 2 * attachments.len()) as u16)
        + u32_le(drawable) + u32_le(count) + attach_format_list_le(attachments)
}

/// Wire encoding of the buffer swap.
pub open spec fn swap_buffers_bytes(
    major: u8,
    drawable: u32,
    target_msc_hi: u32,
    target_msc_lo: u32,
    divisor_hi: u32,
    divisor_lo: u32,
    remainder_hi: u32,
    remainder_lo: u32,
) -> Seq<u8> {
    seq![major, XCB_DRI2_SWAP_BUFFERS] + u16_le(8) + u32_le(drawable) + u32_le(target_msc_hi)
        + u32_le(target_msc_lo) + u32_le(divisor_hi) + u32_le(divisor_lo) + u32_le(remainder_hi)
        + u32_le(remainder_lo)
}

/// Wire encoding of the media-stamp counter query.
pub open spec fn get_msc_bytes(major: u8, drawable: u32) -> Seq<u8> {
    seq![major, XCB_DRI2_GET_MSC] + u16_le(2) + u32_le(drawable)
}

/// Wire encoding of the media-stamp counter wait.
pub open spec fn wait_msc_bytes(
    major: u8,
    drawable: u32,
    target_msc_hi: u32,
    target_msc_lo: u32,
    divisor_hi: u32,
    divisor_lo: u32,
    remainder_hi: u32,
    remainder_lo: u32,
) -> Seq<u8> {
    seq![major, XCB_DRI2_WAIT_MSC] + u16_le(8) + u32_le(drawable) + u32_le(target_msc_hi) + u32_le(
        target_msc_lo,
    ) + u32_le(divisor_hi) + u32_le(divisor_lo) + u32_le(remainder_hi) + u32_le(remainder_lo)
}

/// Wire encoding of the swap-count wait.
pub open spec fn wait_sbc_bytes(
    major: u8,
    drawable: u32,
    target_sbc_hi: u32,
    target_sbc_lo: u32,
) -> Seq<u8> {
    seq![major, XCB_DRI2_WAIT_SBC] + u16_le(4) + u32_le(drawable) + u32_le(target_sbc_hi) + u32_le(
        target_sbc_lo,
    )
}

/// Wire encoding of the swap-interval setting.
pub open spec fn swap_interval_bytes(major: u8, drawable: u32, interval: u32) -> Seq<u8> {
    seq![major, XCB_DRI2_SWAP_INTERVAL] + u16_le(3) + u32_le(drawable) + u32_le(interval)
}

/// Wire encoding of the parameter query.
pub open spec fn get_param_bytes(major: u8, drawable: u32, param: u32) -> Seq<u8> {
    seq![major, XCB_DRI2_GET_PARAM] + u16_le(3) + u32_le(drawable) + u32_le(param)
}

/// Correlation handle of a version query.
#[derive(Clone, Copy, PartialEq, Eq, Structural, Debug)]
pub struct QueryVersionCookie {
    pub base: Cookie,
}

/// Correlation handle of a connect request.
#[derive(Clone, Copy, PartialEq, Eq, Structural, Debug)]
pub struct ConnectCookie {
    pub base: Cookie,
}

/// Correlation handle of an authenticate request.
#[derive(Clone, Copy, PartialEq, Eq, Structural, Debug)]
pub struct AuthenticateCookie {
    pub base: Cookie,
}

/// Correlation handle of a buffer query.
#[derive(Clone, Copy, PartialEq, Eq, Structural, Debug)]
pub struct GetBuffersCookie {
    pub base: Cookie,
}

/// Correlation handle of a region copy.
#[derive(Clone, Copy, PartialEq, Eq, Structural, Debug)]
pub struct CopyRegionCookie {
    pub base: Cookie,
}

/// Correlation handle of a format-qualified buffer query.
#[derive(Clone, Copy, PartialEq, Eq, Structural, Debug)]
pub struct GetBuffersWithFormatCookie {
    pub base: Cookie,
}

/// Correlation handle of a buffer swap.
#[derive(Clone, Copy, PartialEq, Eq, Structural, Debug)]
pub struct SwapBuffersCookie {
    pub base: Cookie,
}

/// Correlation handle of a media-stamp counter query.
#[derive(Clone, Copy, PartialEq, Eq, Structural, Debug)]
pub struct GetMscCookie {
    pub base: Cookie,
}

/// Correlation handle of a media-stamp counter wait.
#[derive(Clone, Copy, PartialEq, Eq, Structural, Debug)]
pub struct WaitMscCookie {
    pub base: Cookie,
}

/// Correlation handle of a swap-count wait.
#[derive(Clone, Copy, PartialEq, Eq, Structural, Debug)]
pub struct WaitSbcCookie {
    pub base: Cookie,
}

/// Correlation handle of a parameter query.
#[derive(Clone, Copy, PartialEq, Eq, Structural, Debug)]
pub struct GetParamCookie {
    pub base: Cookie,
}

/// Builds and transmits the version query.
fn submit_query_version(
    c: &mut Connection,
    checked: bool,
    major_version: u32,
    minor_version: u32,
) -> (r: Result<Cookie, XError>)
    requires
        old(c).wf(),
        old(c)@.next_seq < u64::MAX,
    ensures
        final(c).wf(),
        old(c)@.ext_request_outcome(
            final(c)@,
            r,
            extension_name(),
            PendingKind::Reply { checked },
            query_version_bytes(old(c)@.ext_major(extension_name()), major_version, minor_version),
        ),
{
    let info = match lookup(c) {
        Ok(i) => i,
        Err(e) => {
            return Err(e);
        },
    };
    let mut out: Vec<u8> = Vec::new();
    out.push(info.major_opcode);
    out.push(XCB_DRI2_QUERY_VERSION);
    push_u16_le(&mut out, 3);
    push_u32_le(&mut out, major_version);
    push_u32_le(&mut out, minor_version);
    proof {
        assert(out@ =~= query_version_bytes(info.major_opcode, major_version, minor_version));
    }
    c.issue_request(PendingKind::Reply { checked }, out)
}

/// Issues a checked version query.
pub fn QueryVersion(c: &mut Connection, major_version: u32, minor_version: u32) -> (r: Result<
    QueryVersionCookie,
    XError,
>)
    requires
        old(c).wf(),
        old(c)@.next_seq < u64::MAX,
    ensures
        final(c).wf(),
        old(c)@.ext_request_outcome(
            final(c)@,
            match r {
                Ok(ck) => Ok(ck.base),
                Err(e) => Err(e),
            },
            extension_name(),
            PendingKind::Reply { checked: true },
            query_version_bytes(old(c)@.ext_major(extension_name()), major_version, minor_version),
        ),
{
    match submit_query_version(c, true, major_version, minor_version) {
        Ok(ck) => Ok(QueryVersionCookie { base: ck }),
        Err(e) => Err(e),
    }
}

/// Issues an unchecked version query.
pub fn QueryVersionUnchecked(
    c: &mut Connection,
    major_version: u32,
    minor_version: u32,
) -> (r: Result<QueryVersionCookie, XError>)
    requires
        old(c).wf(),
        old(c)@.next_seq < u64::MAX,
    ensures
        final(c).wf(),
        old(c)@.ext_request_outcome(
            final(c)@,
            match r {
                Ok(ck) => Ok(ck.base),
                Err(e) => Err(e),
            },
            extension_name(),
            PendingKind::Reply { checked: false },
            query_version_bytes(old(c)@.ext_major(extension_name()), major_version, minor_version),
        ),
{
    match submit_query_version(c, false, major_version, minor_version) {
        Ok(ck) => Ok(QueryVersionCookie { base: ck }),
        Err(e) => Err(e),
    }
}

/// Builds and transmits the connect request.
fn submit_connect(
    c: &mut Connection,
    checked: bool,
    window: xproto::Window,
    driver_type: u32,
) -> (r: Result<Cookie, XError>)
    requires
        old(c).wf(),
        old(c)@.next_seq < u64::MAX,
    ensures
        final(c).wf(),
        old(c)@.ext_request_outcome(
            final(c)@,
            r,
            extension_name(),
            PendingKind::Reply { checked },
            connect_bytes(old(c)@.ext_major(extension_name()), window, driver_type),
        ),
{
    let info = match lookup(c) {
        Ok(i) => i,
        Err(e) => {
            return Err(e);
        },
    };
    let mut out: Vec<u8> = Vec::new();
    out.push(info.major_opcode);
    out.push(XCB_DRI2_CONNECT);
    push_u16_le(&mut out, 3);
    push_u32_le(&mut out, window);
    push_u32_le(&mut out, driver_type);
    proof {
        assert(out@ =~= connect_bytes(info.major_opcode, window, driver_type));
    }
    c.issue_request(PendingKind::Reply { checked }, out)
}

/// Issues a checked connect request.
pub fn Connect(c: &mut Connection, window: xproto::Window, driver_type: u32) -> (r: Result<
    ConnectCookie,
    XError,
>)
    requires
        old(c).wf(),
        old(c)@.next_seq < u64::MAX,
    ensures
        final(c).wf(),
        old(c)@.ext_request_outcome(
            final(c)@,
            match r {
                Ok(ck) => Ok(ck.base),
                Err(e) => Err(e),
            },
            extension_name(),
            PendingKind::Reply { checked: true },
            connect_bytes(old(c)@.ext_major(extension_name()), window, driver_type),
        ),
{
    match submit_connect(c, true, window, driver_type) {
        Ok(ck) => Ok(ConnectCookie { base: ck }),
        Err(e) => Err(e),
    }
}

/// Issues an unchecked connect request.
pub fn ConnectUnchecked(
    c: &mut Connection,
    window: xproto::Window,
    driver_type: u32,
) -> (r: Result<ConnectCookie, XError>)
    requires
        old(c).wf(),
        old(c)@.next_seq < u64::MAX,
    ensures
        final(c).wf(),
        old(c)@.ext_request_outcome(
            final(c)@,
            match r {
                Ok(ck) => Ok(ck.base),
                Err(e) => Err(e),
            },
            extension_name(),
            PendingKind::Reply { checked: false },
            connect_bytes(old(c)@.ext_major(extension_name()), window, driver_type),
        ),
{
    match submit_connect(c, false, window, driver_type) {
        Ok(ck) => Ok(ConnectCookie { base: ck }),
        Err(e) => Err(e),
    }
}

/// Builds and transmits the authenticate request.
fn submit_authenticate(
    c: &mut Connection,
    checked: bool,
    window: xproto::Window,
    magic: u32,
) -> (r: Result<Cookie, XError>)
    requires
        old(c).wf(),
        old(c)@.next_seq < u64::MAX,
    ensures
        final(c).wf(),
        old(c)@.ext_request_outcome(
            final(c)@,
            r,
            extension_name(),
            PendingKind::Reply { checked },
            authenticate_bytes(old(c)@.ext_major(extension_name()), window, magic),
        ),
{
    let info = match lookup(c) {
        Ok(i) => i,
        Err(e) => {
            return Err(e);
        },
    };
    let mut out: Vec<u8> = Vec::new();
    out.push(info.major_opcode);
    out.push(XCB_DRI2_AUTHENTICATE);
    push_u16_le(&mut out, 3);
    push_u32_le(&mut out, window);
    push_u32_le(&mut out, magic);
    proof {
        assert(out@ =~= authenticate_bytes(info.major_opcode, window, magic));
    }
    c.issue_request(PendingKind::Reply { checked }, out)
}

/// Issues a checked authenticate request.
pub fn Authenticate(c: &mut Connection, window: xproto::Window, magic: u32) -> (r: Result<
    AuthenticateCookie,
    XError,
>)
    requires
        old(c).wf(),
        old(c)@.next_seq < u64::MAX,
    ensures
        final(c).wf(),
        old(c)@.ext_request_outcome(
            final(c)@,
            match r {
                Ok(ck) => Ok(ck.base),
                Err(e) => Err(e),
            },
            extension_name(),
            PendingKind::Reply { checked: true },
            authenticate_bytes(old(c)@.ext_major(extension_name()), window, magic),
        ),
{
    match submit_authenticate(c, true, window, magic) {
        Ok(ck) => Ok(AuthenticateCookie { base: ck }),
        Err(e) => Err(e),
    }
}

/// Issues an unchecked authenticate request.
pub fn AuthenticateUnchecked(c: &mut Connection, window: xproto::Window, magic: u32) -> (r: Result<
    AuthenticateCookie,
    XError,
>)
    requires
        old(c).wf(),
        old(c)@.next_seq < u64::MAX,
    ensures
        final(c).wf(),
        old(c)@.ext_request_outcome(
            final(c)@,
            match r {
                Ok(ck) => Ok(ck.base),
                Err(e) => Err(e),
            },
            extension_name(),
            PendingKind::Reply { checked: false },
            authenticate_bytes(old(c)@.ext_major(extension_name()), window, magic),
        ),
{
    match submit_authenticate(c, false, window, magic) {
        Ok(ck) => Ok(AuthenticateCookie { base: ck }),
        Err(e) => Err(e),
    }
}

/// Builds and transmits the drawable-creation request.
fn submit_create_drawable(c: &mut Connection, kind: PendingKind, drawable: xproto::Drawable) -> (r:
    Result<Cookie, XError>)
    requires
        old(c).wf(),
        old(c)@.next_seq < u64::MAX,
    ensures
        final(c).wf(),
        old(c)@.ext_request_outcome(
            final(c)@,
            r,
            extension_name(),
            kind,
            create_drawable_bytes(old(c)@.ext_major(extension_name()), drawable),
        ),
{
    let info = match lookup(c) {
        Ok(i) => i,
        Err(e) => {
            return Err(e);
        },
    };
    let mut out: Vec<u8> = Vec::new();
    out.push(info.major_opcode);
    out.push(XCB_DRI2_CREATE_DRAWABLE);
    push_u16_le(&mut out, 2);
    push_u32_le(&mut out, drawable);
    proof {
        assert(out@ =~= create_drawable_bytes(info.major_opcode, drawable));
    }
    c.issue_request(kind, out)
}

/// Creates the server-side drawable bookkeeping; checked, so a protocol
/// error surfaces at resolution.
pub fn CreateDrawableChecked(c: &mut Connection, drawable: xproto::Drawable) -> (r: Result<
    VoidCookie,
    XError,
>)
    requires
        old(c).wf(),
        old(c)@.next_seq < u64::MAX,
    ensures
        final(c).wf(),
        old(c)@.ext_request_outcome(
            final(c)@,
            match r {
                Ok(ck) => Ok(ck.base),
                Err(e) => Err(e),
            },
            extension_name(),
            PendingKind::VoidChecked,
            create_drawable_bytes(old(c)@.ext_major(extension_name()), drawable),
        ),
{
    match submit_create_drawable(c, PendingKind::VoidChecked, drawable) {
        Ok(ck) => Ok(VoidCookie { base: ck }),
        Err(e) => Err(e),
    }
}

/// Creates the server-side drawable bookkeeping; unchecked, so protocol
/// errors are suppressed.
pub fn CreateDrawable(c: &mut Connection, drawable: xproto::Drawable) -> (r: Result<
    VoidCookie,
    XError,
>)
    requires
        old(c).wf(),
        old(c)@.next_seq < u64::MAX,
    ensures
        final(c).wf(),
        old(c)@.ext_request_outcome(
            final(c)@,
            match r {
                Ok(ck) => Ok(ck.base),
                Err(e) => Err(e),
            },
            extension_name(),
            PendingKind::VoidUnchecked,
            create_drawable_bytes(old(c)@.ext_major(extension_name()), drawable),
        ),
{
    match submit_create_drawable(c, PendingKind::VoidUnchecked, drawable) {
        Ok(ck) => Ok(VoidCookie { base: ck }),
        Err(e) => Err(e),
    }
}

/// Builds and transmits the drawable-destruction request.
fn submit_destroy_drawable(c: &mut Connection, kind: PendingKind, drawable: xproto::Drawable) -> (r:
    Result<Cookie, XError>)
    requires
        old(c).wf(),
        old(c)@.next_seq < u64::MAX,
    ensures
        final(c).wf(),
        old(c)@.ext_request_outcome(
            final(c)@,
            r,
            extension_name(),
            kind,
            destroy_drawable_bytes(old(c)@.ext_major(extension_name()), drawable),
        ),
{
    let info = match lookup(c) {
        Ok(i) => i,
        Err(e) => {
            return Err(e);
        },
    };
    let mut out: Vec<u8> = Vec::new();
    out.push(info.major_opcode);
    out.push(XCB_DRI2_DESTROY_DRAWABLE);
    push_u16_le(&mut out, 2);
    push_u32_le(&mut out, drawable);
    proof {
        assert(out@ =~= destroy_drawable_bytes(info.major_opcode, drawable));
    }
    c.issue_request(kind, out)
}

/// Destroys the server-side drawable bookkeeping; checked.
pub fn DestroyDrawableChecked(c: &mut Connection, drawable: xproto::Drawable) -> (r: Result<
    VoidCookie,
    XError,
>)
    requires
        old(c).wf(),
        old(c)@.next_seq < u64::MAX,
    ensures
        final(c).wf(),
        old(c)@.ext_request_outcome(
            final(c)@,
            match r {
                Ok(ck) => Ok(ck.base),
                Err(e) => Err(e),
            },
            extension_name(),
            PendingKind::VoidChecked,
            destroy_drawable_bytes(old(c)@.ext_major(extension_name()), drawable),
        ),
{
    match submit_destroy_drawable(c, PendingKind::VoidChecked, drawable) {
        Ok(ck) => Ok(VoidCookie { base: ck }),
        Err(e) => Err(e),
    }
}

/// Destroys the server-side drawable bookkeeping; unchecked.
pub fn DestroyDrawable(c: &mut Connection, drawable: xproto::Drawable) -> (r: Result<
    VoidCookie,
    XError,
>)
    requires
        old(c).wf(),
        old(c)@.next_seq < u64::MAX,
    ensures
        final(c).wf(),
        old(c)@.ext_request_outcome(
            final(c)@,
            match r {
                Ok(ck) => Ok(ck.base),
                Err(e) => Err(e),
            },
            extension_name(),
            PendingKind::VoidUnchecked,
            destroy_drawable_bytes(old(c)@.ext_major(extension_name()), drawable),
        ),
{
    match submit_destroy_drawable(c, PendingKind::VoidUnchecked, drawable) {
        Ok(ck) => Ok(VoidCookie { base: ck }),
        Err(e) => Err(e),
    }
}

/// Builds and transmits the buffer query.
fn submit_get_buffers(
    c: &mut Connection,
    checked: bool,
    drawable: xproto::Drawable,
    count: u32,
    attachments: &Vec<u32>,
) -> (r: Result<Cookie, XError>)
    requires
        old(c).wf(),
        old(c)@.next_seq < u64::MAX,
        attachments@.len() <= 65532,
    ensures
        final(c).wf(),
        old(c)@.ext_request_outcome(
            final(c)@,
            r,
            extension_name(),
            PendingKind::Reply { checked },
            get_buffers_bytes(old(c)@.ext_major(extension_name()), drawable, count, attachments@),
        ),
{
    let info = match lookup(c) {
        Ok(i) => i,
        Err(e) => {
            return Err(e);
        },
    };
    let mut out: Vec<u8> = Vec::new();
    out.push(info.major_opcode);
    out.push(XCB_DRI2_GET_BUFFERS);
    push_u16_le(&mut out, (3 + attachments.len()) as u16);
    push_u32_le(&mut out, drawable);
    push_u32_le(&mut out, count);
    push_u32_list(&mut out, attachments);
    proof {
        assert(out@ =~= get_buffers_bytes(info.major_opcode, drawable, count, attachments@));
    }
    c.issue_request(PendingKind::Reply { checked }, out)
}

/// Issues a checked buffer query for the attachments listed.
pub fn GetBuffers(
    c: &mut Connection,
    drawable: xproto::Drawable,
    count: u32,
    attachments: &Vec<u32>,
) -> (r: Result<GetBuffersCookie, XError>)
    requires
        old(c).wf(),
        old(c)@.next_seq < u64::MAX,
        attachments@.len() <= 65532,
    ensures
        final(c).wf(),
        old(c)@.ext_request_outcome(
            final(c)@,
            match r {
                Ok(ck) => Ok(ck.base),
                Err(e) => Err(e),
            },
            extension_name(),
            PendingKind::Reply { checked: true },
            get_buffers_bytes(old(c)@.ext_major(extension_name()), drawable, count, attachments@),
        ),
{
    match submit_get_buffers(c, true, drawable, count, attachments) {
        Ok(ck) => Ok(GetBuffersCookie { base: ck }),
        Err(e) => Err(e),
    }
}

/// Issues an unchecked buffer query for the attachments listed.
pub fn GetBuffersUnchecked(
    c: &mut Connection,
    drawable: xproto::Drawable,
    count: u32,
    attachments: &Vec<u32>,
) -> (r: Result<GetBuffersCookie, XError>)
    requires
        old(c).wf(),
        old(c)@.next_seq < u64::MAX,
        attachments@.len() <= 65532,
    ensures
        final(c).wf(),
        old(c)@.ext_request_outcome(
            final(c)@,
            match r {
                Ok(ck) => Ok(ck.base),
                Err(e) => Err(e),
            },
            extension_name(),
            PendingKind::Reply { checked: false },
            get_buffers_bytes(old(c)@.ext_major(extension_name()), drawable, count, attachments@),
        ),
{
    match submit_get_buffers(c, false, drawable, count, attachments) {
        Ok(ck) => Ok(GetBuffersCookie { base: ck }),
        Err(e) => Err(e),
    }
}

/// Builds and transmits the region copy.
fn submit_copy_region(
    c: &mut Connection,
    checked: bool,
    drawable: xproto::Drawable,
    region: u32,
    dest: u32,
    src: u32,
) -> (r: Result<Cookie, XError>)
    requires
        old(c).wf(),
        old(c)@.next_seq < u64::MAX,
    ensures
        final(c).wf(),
        old(c)@.ext_request_outcome(
            final(c)@,
            r,
            extension_name(),
            PendingKind::Reply { checked },
            copy_region_bytes(old(c)@.ext_major(extension_name()), drawable, region, dest, src),
        ),
{
    let info = match lookup(c) {
        Ok(i) => i,
        Err(e) => {
            return Err(e);
        },
    };
    let mut out: Vec<u8> = Vec::new();
    out.push(info.major_opcode);
    out.push(XCB_DRI2_COPY_REGION);
    push_u16_le(&mut out, 5);
    push_u32_le(&mut out, drawable);
    push_u32_le(&mut out, region);
    push_u32_le(&mut out, dest);
    push_u32_le(&mut out, src);
    proof {
        assert(out@ =~= copy_region_bytes(info.major_opcode, drawable, region, dest, src));
    }
    c.issue_request(PendingKind::Reply { checked }, out)
}

/// Issues a checked region copy.
pub fn CopyRegion(
    c: &mut Connection,
    drawable: xproto::Drawable,
    region: u32,
    dest: u32,
    src: u32,
) -> (r: Result<CopyRegionCookie, XError>)
    requires
        old(c).wf(),
        old(c)@.next_seq < u64::MAX,
    ensures
        final(c).wf(),
        old(c)@.ext_request_outcome(
            final(c)@,
            match r {
                Ok(ck) => Ok(ck.base),
                Err(e) => Err(e),
            },
            extension_name(),
            PendingKind::Reply { checked: true },
            copy_region_bytes(old(c)@.ext_major(extension_name()), drawable, region, dest, src),
        ),
{
    match submit_copy_region(c, true, drawable, region, dest, src) {
        Ok(ck) => Ok(CopyRegionCookie { base: ck }),
        Err(e) => Err(e),
    }
}

/// Issues an unchecked region copy.
pub fn CopyRegionUnchecked(
    c: &mut Connection,
    drawable: xproto::Drawable,
    region: u32,
    dest: u32,
    src: u32,
) -> (r: Result<CopyRegionCookie, XError>)
    requires
        old(c).wf(),
        old(c)@.next_seq < u64::MAX,
    ensures
        final(c).wf(),
        old(c)@.ext_request_outcome(
            final(c)@,
            match r {
                Ok(ck) => Ok(ck.base),
                Err(e) => Err(e),
            },
            extension_name(),
            PendingKind::Reply { checked: false },
            copy_region_bytes(old(c)@.ext_major(extension_name()), drawable, region, dest, src),
        ),
{
    match submit_copy_region(c, false, drawable, region, dest, src) {
        Ok(ck) => Ok(CopyRegionCookie { base: ck }),
        Err(e) => Err(e),
    }
}

/// Builds and transmits the format-qualified buffer query.
fn submit_get_buffers_with_format(
    c: &mut Connection,
    checked: bool,
    drawable: xproto::Drawable,
    count: u32,
    attachments: &Vec<AttachFormat>,
) -> (r: Result<Cookie, XError>)
    requires
        old(c).wf(),
        old(c)@.next_seq < u64::MAX,
        attachments@.len() <= 32766,
    ensures
        final(c).wf(),
        old(c)@.ext_request_outcome(
            final(c)@,
            r,
            extension_name(),
            PendingKind::Reply { checked },
            get_buffers_with_format_bytes(
                old(c)@.ext_major(extension_name()),
                drawable,
                count,
                attachments@,
            ),
        ),
{
    let info = match lookup(c) {
        Ok(i) => i,
        Err(e) => {
            return Err(e);
        },
    };
    let mut out: Vec<u8> = Vec::new();
    out.push(info.major_opcode);
    out.push(XCB_DRI2_GET_BUFFERS_WITH_FORMAT);
    push_u16_le(&mut out, (3 + 2 * attachments.len()) as u16);
    push_u32_le(&mut out, drawable);
    push_u32_le(&mut out, count);
    push_attach_format_list(&mut out, attachments);
    proof {
        assert(out@ =~= get_buffers_with_format_bytes(
            info.major_opcode,
            drawable,
            count,
            attachments@,
        ));
    }
    c.issue_request(PendingKind::Reply { checked }, out)
}

/// Issues a checked format-qualified buffer query.
pub fn GetBuffersWithFormat(
    c: &mut Connection,
    drawable: xproto::Drawable,
    count: u32,
    attachments: &Vec<AttachFormat>,
) -> (r: Result<GetBuffersWithFormatCookie, XError>)
    requires
        old(c).wf(),
        old(c)@.next_seq < u64::MAX,
        attachments@.len() <= 32766,
    ensures
        final(c).wf(),
        old(c)@.ext_request_outcome(
            final(c)@,
            match r {
                Ok(ck) => Ok(ck.base),
                Err(e) => Err(e),
            },
            extension_name(),
            PendingKind::Reply { checked: true },
            get_buffers_with_format_bytes(
                old(c)@.ext_major(extension_name()),
                drawable,
                count,
                attachments@,
            ),
        ),
{
    match submit_get_buffers_with_format(c, true, drawable, count, attachments) {
        Ok(ck) => Ok(GetBuffersWithFormatCookie { base: ck }),
        Err(e) => Err(e),
    }
}

/// Issues an unchecked format-qualified buffer query.
pub fn GetBuffersWithFormatUnchecked(
    c: &mut Connection,
    drawable: xproto::Drawable,
    count: u32,
    attachments: &Vec<AttachFormat>,
) -> (r: Result<GetBuffersWithFormatCookie, XError>)
    requires
        old(c).wf(),
        old(c)@.next_seq < u64::MAX,
        attachments@.len() <= 32766,
    ensures
        final(c).wf(),
        old(c)@.ext_request_outcome(
            final(c)@,
            match r {
                Ok(ck) => Ok(ck.base),
                Err(e) => Err(e),
            },
            extension_name(),
            PendingKind::Reply { checked: false },
            get_buffers_with_format_bytes(
                old(c)@.ext_major(extension_name()),
                drawable,
                count,
                attachments@,
            ),
        ),
{
    match submit_get_buffers_with_format(c, false, drawable, count, attachments) {
        Ok(ck) => Ok(GetBuffersWithFormatCookie { base: ck }),
        Err(e) => Err(e),
    }
}

/// Builds and transmits the buffer swap.
fn submit_swap_buffers(
    c: &mut Connection,
    checked: bool,
    drawable: xproto::Drawable,
    target_msc_hi: u32,
    target_msc_lo: u32,
    divisor_hi: u32,
    divisor_lo: u32,
    remainder_hi: u32,
    remainder_lo: u32,
) -> (r: Result<Cookie, XError>)
    requires
        old(c).wf(),
        old(c)@.next_seq < u64::MAX,
    ensures
        final(c).wf(),
        old(c)@.ext_request_outcome(
            final(c)@,
            r,
            extension_name(),
            PendingKind::Reply { checked },
            swap_buffers_bytes(
                old(c)@.ext_major(extension_name()),
                drawable,
                target_msc_hi,
                target_msc_lo,
                divisor_hi,
                divisor_lo,
                remainder_hi,
                remainder_lo,
            ),
        ),
{
    let info = match lookup(c) {
        Ok(i) => i,
        Err(e) => {
            return Err(e);
        },
    };
    let mut out: Vec<u8> = Vec::new();
    out.push(info.major_opcode);
    out.push(XCB_DRI2_SWAP_BUFFERS);
    push_u16_le(&mut out, 8);
    push_u32_le(&mut out, drawable);
    push_u32_le(&mut out, target_msc_hi);
    push_u32_le(&mut out, target_msc_lo);
    push_u32_le(&mut out, divisor_hi);
    push_u32_le(&mut out, divisor_lo);
    push_u32_le(&mut out, remainder_hi);
    push_u32_le(&mut out, remainder_lo);
    proof {
        assert(out@ =~= swap_buffers_bytes(
            info.major_opcode,
            drawable,
            target_msc_hi,
            target_msc_lo,
            divisor_hi,
            divisor_lo,
            remainder_hi,
            remainder_lo,
        ));
    }
    c.issue_request(PendingKind::Reply { checked }, out)
}

/// Issues a checked buffer swap.
pub fn SwapBuffers(
    c: &mut Connection,
    drawable: xproto::Drawable,
    target_msc_hi: u32,
    target_msc_lo: u32,
    divisor_hi: u32,
    divisor_lo: u32,
    remainder_hi: u32,
    remainder_lo: u32,
) -> (r: Result<SwapBuffersCookie, XError>)
    requires
        old(c).wf(),
        old(c)@.next_seq < u64::MAX,
    ensures
        final(c).wf(),
        old(c)@.ext_request_outcome(
            final(c)@,
            match r {
                Ok(ck) => Ok(ck.base),
                Err(e) => Err(e),
            },
            extension_name(),
            PendingKind::Reply { checked: true },
            swap_buffers_bytes(
                old(c)@.ext_major(extension_name()),
                drawable,
                target_msc_hi,
                target_msc_lo,
                divisor_hi,
                divisor_lo,
                remainder_hi,
                remainder_lo,
            ),
        ),
{
    match submit_swap_buffers(
        c,
        true,
        drawable,
        target_msc_hi,
        target_msc_lo,
        divisor_hi,
        divisor_lo,
        remainder_hi,
        remainder_lo,
    ) {
        Ok(ck) => Ok(SwapBuffersCookie { base: ck }),
        Err(e) => Err(e),
    }
}

/// Issues an unchecked buffer swap.
pub fn SwapBuffersUnchecked(
    c: &mut Connection,
    drawable: xproto::Drawable,
    target_msc_hi: u32,
    target_msc_lo: u32,
    divisor_hi: u32,
    divisor_lo: u32,
    remainder_hi: u32,
    remainder_lo: u32,
) -> (r: Result<SwapBuffersCookie, XError>)
    requires
        old(c).wf(),
        old(c)@.next_seq < u64::MAX,
    ensures
        final(c).wf(),
        old(c)@.ext_request_outcome(
            final(c)@,
            match r {
                Ok(ck) => Ok(ck.base),
                Err(e) => Err(e),
            },
            extension_name(),
            PendingKind::Reply { checked: false },
            swap_buffers_bytes(
                old(c)@.ext_major(extension_name()),
                drawable,
                target_msc_hi,
                target_msc_lo,
                divisor_hi,
                divisor_lo,
                remainder_hi,
                remainder_lo,
            ),
        ),
{
    match submit_swap_buffers(
        c,
        false,
        drawable,
        target_msc_hi,
        target_msc_lo,
        divisor_hi,
        divisor_lo,
        remainder_hi,
        remainder_lo,
    ) {
        Ok(ck) => Ok(SwapBuffersCookie { base: ck }),
        Err(e) => Err(e),
    }
}

/// Builds and transmits the media-stamp counter query.
fn submit_get_msc(c: &mut Connection, checked: bool, drawable: xproto::Drawable) -> (r: Result<
    Cookie,
    XError,
>)
    requires
        old(c).wf(),
        old(c)@.next_seq < u64::MAX,
    ensures
        final(c).wf(),
        old(c)@.ext_request_outcome(
            final(c)@,
            r,
            extension_name(),
            PendingKind::Reply { checked },
            get_msc_bytes(old(c)@.ext_major(extension_name()), drawable),
        ),
{
    let info = match lookup(c) {
        Ok(i) => i,
        Err(e) => {
            return Err(e);
        },
    };
    let mut out: Vec<u8> = Vec::new();
    out.push(info.major_opcode);
    out.push(XCB_DRI2_GET_MSC);
    push_u16_le(&mut out, 2);
    push_u32_le(&mut out, drawable);
    proof {
        assert(out@ =~= get_msc_bytes(info.major_opcode, drawable));
    }
    c.issue_request(PendingKind::Reply { checked }, out)
}

/// Issues a checked media-stamp counter query.
pub fn GetMsc(c: &mut Connection, drawable: xproto::Drawable) -> (r: Result<GetMscCookie, XError>)
    requires
        old(c).wf(),
        old(c)@.next_seq < u64::MAX,
    ensures
        final(c).wf(),
        old(c)@.ext_request_outcome(
            final(c)@,
            match r {
                Ok(ck) => Ok(ck.base),
                Err(e) => Err(e),
            },
            extension_name(),
            PendingKind::Reply { checked: true },
            get_msc_bytes(old(c)@.ext_major(extension_name()), drawable),
        ),
{
    match submit_get_msc(c, true, drawable) {
        Ok(ck) => Ok(GetMscCookie { base: ck }),
        Err(e) => Err(e),
    }
}

/// Issues an unchecked media-stamp counter query.
pub fn GetMscUnchecked(c: &mut Connection, drawable: xproto::Drawable) -> (r: Result<
    GetMscCookie,
    XError,
>)
    requires
        old(c).wf(),
        old(c)@.next_seq < u64::MAX,
    ensures
        final(c).wf(),
        old(c)@.ext_request_outcome(
            final(c)@,
            match r {
                Ok(ck) => Ok(ck.base),
                Err(e) => Err(e),
            },
            extension_name(),
            PendingKind::Reply { checked: false },
            get_msc_bytes(old(c)@.ext_major(extension_name()), drawable),
        ),
{
    match submit_get_msc(c, false, drawable) {
        Ok(ck) => Ok(GetMscCookie { base: ck }),
        Err(e) => Err(e),
    }
}

/// Builds and transmits the media-stamp counter wait.
fn submit_wait_msc(
    c: &mut Connection,
    checked: bool,
    drawable: xproto::Drawable,
    target_msc_hi: u32,
    target_msc_lo: u32,
    divisor_hi: u32,
    divisor_lo: u32,
    remainder_hi: u32,
    remainder_lo: u32,
) -> (r: Result<Cookie, XError>)
    requires
        old(c).wf(),
        old(c)@.next_seq < u64::MAX,
    ensures
        final(c).wf(),
        old(c)@.ext_request_outcome(
            final(c)@,
            r,
            extension_name(),
            PendingKind::Reply { checked },
            wait_msc_bytes(
                old(c)@.ext_major(extension_name()),
                drawable,
                target_msc_hi,
                target_msc_lo,
                divisor_hi,
                divisor_lo,
                remainder_hi,
                remainder_lo,
            ),
        ),
{
    let info = match lookup(c) {
        Ok(i) => i,
        Err(e) => {
            return Err(e);
        },
    };
    let mut out: Vec<u8> = Vec::new();
    out.push(info.major_opcode);
    out.push(XCB_DRI2_WAIT_MSC);
    push_u16_le(&mut out, 8);
    push_u32_le(&mut out, drawable);
    push_u32_le(&mut out, target_msc_hi);
    push_u32_le(&mut out, target_msc_lo);
    push_u32_le(&mut out, divisor_hi);
    push_u32_le(&mut out, divisor_lo);
    push_u32_le(&mut out, remainder_hi);
    push_u32_le(&mut out, remainder_lo);
    proof {
        assert(out@ =~= wait_msc_bytes(
            info.major_opcode,
            drawable,
            target_msc_hi,
            target_msc_lo,
            divisor_hi,
            divisor_lo,
            remainder_hi,
            remainder_lo,
        ));
    }
    c.issue_request(PendingKind::Reply { checked }, out)
}

/// Issues a checked media-stamp counter wait.
pub fn WaitMsc(
    c: &mut Connection,
    drawable: xproto::Drawable,
    target_msc_hi: u32,
    target_msc_lo: u32,
    divisor_hi: u32,
    divisor_lo: u32,
    remainder_hi: u32,
    remainder_lo: u32,
) -> (r: Result<WaitMscCookie, XError>)
    requires
        old(c).wf(),
        old(c)@.next_seq < u64::MAX,
    ensures
        final(c).wf(),
        old(c)@.ext_request_outcome(
            final(c)@,
            match r {
                Ok(ck) => Ok(ck.base),
                Err(e) => Err(e),
            },
            extension_name(),
            PendingKind::Reply { checked: true },
            wait_msc_bytes(
                old(c)@.ext_major(extension_name()),
                drawable,
                target_msc_hi,
                target_msc_lo,
                divisor_hi,
                divisor_lo,
                remainder_hi,
                remainder_lo,
            ),
        ),
{
    match submit_wait_msc(
        c,
        true,
        drawable,
        target_msc_hi,
        target_msc_lo,
        divisor_hi,
        divisor_lo,
        remainder_hi,
        remainder_lo,
    ) {
        Ok(ck) => Ok(WaitMscCookie { base: ck }),
        Err(e) => Err(e),
    }
}

/// Issues an unchecked media-stamp counter wait.
pub fn WaitMscUnchecked(
    c: &mut Connection,
    drawable: xproto::Drawable,
    target_msc_hi: u32,
    target_msc_lo: u32,
    divisor_hi: u32,
    divisor_lo: u32,
    remainder_hi: u32,
    remainder_lo: u32,
) -> (r: Result<WaitMscCookie, XError>)
    requires
        old(c).wf(),
        old(c)@.next_seq < u64::MAX,
    ensures
        final(c).wf(),
        old(c)@.ext_request_outcome(
            final(c)@,
            match r {
                Ok(ck) => Ok(ck.base),
                Err(e) => Err(e),
            },
            extension_name(),
            PendingKind::Reply { checked: false },
            wait_msc_bytes(
                old(c)@.ext_major(extension_name()),
                drawable,
                target_msc_hi,
                target_msc_lo,
                divisor_hi,
                divisor_lo,
                remainder_hi,
                remainder_lo,
            ),
        ),
{
    match submit_wait_msc(
        c,
        false,
        drawable,
        target_msc_hi,
        target_msc_lo,
        divisor_hi,
        divisor_lo,
        remainder_hi,
        remainder_lo,
    ) {
        Ok(ck) => Ok(WaitMscCookie { base: ck }),
        Err(e) => Err(e),
    }
}

/// Builds and transmits the swap-count wait.
fn submit_wait_sbc(
    c: &mut Connection,
    checked: bool,
    drawable: xproto::Drawable,
    target_sbc_hi: u32,
    target_sbc_lo: u32,
) -> (r: Result<Cookie, XError>)
    requires
        old(c).wf(),
        old(c)@.next_seq < u64::MAX,
    ensures
        final(c).wf(),
        old(c)@.ext_request_outcome(
            final(c)@,
            r,
            extension_name(),
            PendingKind::Reply { checked },
            wait_sbc_bytes(
                old(c)@.ext_major(extension_name()),
                drawable,
                target_sbc_hi,
                target_sbc_lo,
            ),
        ),
{
    let info = match lookup(c) {
        Ok(i) => i,
        Err(e) => {
            return Err(e);
        },
    };
    let mut out: Vec<u8> = Vec::new();
    out.push(info.major_opcode);
    out.push(XCB_DRI2_WAIT_SBC);
    push_u16_le(&mut out, 4);
    push_u32_le(&mut out, drawable);
    push_u32_le(&mut out, target_sbc_hi);
    push_u32_le(&mut out, target_sbc_lo);
    proof {
        assert(out@ =~= wait_sbc_bytes(info.major_opcode, drawable, target_sbc_hi, target_sbc_lo));
    }
    c.issue_request(PendingKind::Reply { checked }, out)
}

/// Issues a checked swap-count wait.
pub fn WaitSbc(
    c: &mut Connection,
    drawable: xproto::Drawable,
    target_sbc_hi: u32,
    target_sbc_lo: u32,
) -> (r: Result<WaitSbcCookie, XError>)
    requires
        old(c).wf(),
        old(c)@.next_seq < u64::MAX,
    ensures
        final(c).wf(),
        old(c)@.ext_request_outcome(
            final(c)@,
            match r {
                Ok(ck) => Ok(ck.base),
                Err(e) => Err(e),
            },
            extension_name(),
            PendingKind::Reply { checked: true },
            wait_sbc_bytes(
                old(c)@.ext_major(extension_name()),
                drawable,
                target_sbc_hi,
                target_sbc_lo,
            ),
        ),
{
    match submit_wait_sbc(c, true, drawable, target_sbc_hi, target_sbc_lo) {
        Ok(ck) => Ok(WaitSbcCookie { base: ck }),
        Err(e) => Err(e),
    }
}

/// Issues an unchecked swap-count wait.
pub fn WaitSbcUnchecked(
    c: &mut Connection,
    drawable: xproto::Drawable,
    target_sbc_hi: u32,
    target_sbc_lo: u32,
) -> (r: Result<WaitSbcCookie, XError>)
    requires
        old(c).wf(),
        old(c)@.next_seq < u64::MAX,
    ensures
        final(c).wf(),
        old(c)@.ext_request_outcome(
            final(c)@,
            match r {
                Ok(ck) => Ok(ck.base),
                Err(e) => Err(e),
            },
            extension_name(),
            PendingKind::Reply { checked: false },
            wait_sbc_bytes(
                old(c)@.ext_major(extension_name()),
                drawable,
                target_sbc_hi,
                target_sbc_lo,
            ),
        ),
{
    match submit_wait_sbc(c, false, drawable, target_sbc_hi, target_sbc_lo) {
        Ok(ck) => Ok(WaitSbcCookie { base: ck }),
        Err(e) => Err(e),
    }
}

/// Builds and transmits the swap-interval setting.
fn submit_swap_interval(
    c: &mut Connection,
    kind: PendingKind,
    drawable: xproto::Drawable,
    interval: u32,
) -> (r: Result<Cookie, XError>)
    requires
        old(c).wf(),
        old(c)@.next_seq < u64::MAX,
    ensures
        final(c).wf(),
        old(c)@.ext_request_outcome(
            final(c)@,
            r,
            extension_name(),
            kind,
            swap_interval_bytes(old(c)@.ext_major(extension_name()), drawable, interval),
        ),
{
    let info = match lookup(c) {
        Ok(i) => i,
        Err(e) => {
            return Err(e);
        },
    };
    let mut out: Vec<u8> = Vec::new();
    out.push(info.major_opcode);
    out.push(XCB_DRI2_SWAP_INTERVAL);
    push_u16_le(&mut out, 3);
    push_u32_le(&mut out, drawable);
    push_u32_le(&mut out, interval);
    proof {
        assert(out@ =~= swap_interval_bytes(info.major_opcode, drawable, interval));
    }
    c.issue_request(kind, out)
}

/// Sets the swap interval; checked.
pub fn SwapIntervalChecked(c: &mut Connection, drawable: xproto::Drawable, interval: u32) -> (r:
    Result<VoidCookie, XError>)
    requires
        old(c).wf(),
        old(c)@.next_seq < u64::MAX,
    ensures
        final(c).wf(),
        old(c)@.ext_request_outcome(
            final(c)@,
            match r {
                Ok(ck) => Ok(ck.base),
                Err(e) => Err(e),
            },
            extension_name(),
            PendingKind::VoidChecked,
            swap_interval_bytes(old(c)@.ext_major(extension_name()), drawable, interval),
        ),
{
    match submit_swap_interval(c, PendingKind::VoidChecked, drawable, interval) {
        Ok(ck) => Ok(VoidCookie { base: ck }),
        Err(e) => Err(e),
    }
}

/// Sets the swap interval; unchecked.
pub fn SwapInterval(c: &mut Connection, drawable: xproto::Drawable, interval: u32) -> (r: Result<
    VoidCookie,
    XError,
>)
    requires
        old(c).wf(),
        old(c)@.next_seq < u64::MAX,
    ensures
        final(c).wf(),
        old(c)@.ext_request_outcome(
            final(c)@,
            match r {
                Ok(ck) => Ok(ck.base),
                Err(e) => Err(e),
            },
            extension_name(),
            PendingKind::VoidUnchecked,
            swap_interval_bytes(old(c)@.ext_major(extension_name()), drawable, interval),
        ),
{
    match submit_swap_interval(c, PendingKind::VoidUnchecked, drawable, interval) {
        Ok(ck) => Ok(VoidCookie { base: ck }),
        Err(e) => Err(e),
    }
}

/// Builds and transmits the parameter query.
fn submit_get_param(
    c: &mut Connection,
    checked: bool,
    drawable: xproto::Drawable,
    param: u32,
) -> (r: Result<Cookie, XError>)
    requires
        old(c).wf(),
        old(c)@.next_seq < u64::MAX,
    ensures
        final(c).wf(),
        old(c)@.ext_request_outcome(
            final(c)@,
            r,
            extension_name(),
            PendingKind::Reply { checked },
            get_param_bytes(old(c)@.ext_major(extension_name()), drawable, param),
        ),
{
    let info = match lookup(c) {
        Ok(i) => i,
        Err(e) => {
            return Err(e);
        },
    };
    let mut out: Vec<u8> = Vec::new();
    out.push(info.major_opcode);
    out.push(XCB_DRI2_GET_PARAM);
    push_u16_le(&mut out, 3);
    push_u32_le(&mut out, drawable);
    push_u32_le(&mut out, param);
    proof {
        assert(out@ =~= get_param_bytes(info.major_opcode, drawable, param));
    }
    c.issue_request(PendingKind::Reply { checked }, out)
}

/// Issues a checked parameter query.
pub fn GetParam(c: &mut Connection, drawable: xproto::Drawable, param: u32) -> (r: Result<
    GetParamCookie,
    XError,
>)
    requires
        old(c).wf(),
        old(c)@.next_seq < u64::MAX,
    ensures
        final(c).wf(),
        old(c)@.ext_request_outcome(
            final(c)@,
            match r {
                Ok(ck) => Ok(ck.base),
                Err(e) => Err(e),
            },
            extension_name(),
            PendingKind::Reply { checked: true },
            get_param_bytes(old(c)@.ext_major(extension_name()), drawable, param),
        ),
{
    match submit_get_param(c, true, drawable, param) {
        Ok(ck) => Ok(GetParamCookie { base: ck }),
        Err(e) => Err(e),
    }
}

/// Issues an unchecked parameter query.
pub fn GetParamUnchecked(c: &mut Connection, drawable: xproto::Drawable, param: u32) -> (r: Result<
    GetParamCookie,
    XError,
>)
    requires
        old(c).wf(),
        old(c)@.next_seq < u64::MAX,
    ensures
        final(c).wf(),
        old(c)@.ext_request_outcome(
            final(c)@,
            match r {
                Ok(ck) => Ok(ck.base),
                Err(e) => Err(e),
            },
            extension_name(),
            PendingKind::Reply { checked: false },
            get_param_bytes(old(c)@.ext_major(extension_name()), drawable, param),
        ),
{
    match submit_get_param(c, false, drawable, param) {
        Ok(ck) => Ok(GetParamCookie { base: ck }),
        Err(e) => Err(e),
    }
}

/// The reply to a version query; owns its buffer.
#[derive(Debug)]
pub struct QueryVersionReply {
    pub bytes: Vec<u8>,
}

impl QueryVersionReply {
    /// The buffer holds at least the fixed reply header.
    pub open spec fn wf(self) -> bool {
        self.bytes@.len() >= 32
    }

    pub fn major_version(&self) -> (r: u32)
        requires
            self.wf(),
        ensures
            r == u32_at(self.bytes@, 8),
    {
        read_u32_le(&self.bytes, 8)
    }

    pub fn minor_version(&self) -> (r: u32)
        requires
            self.wf(),
        ensures
            r == u32_at(self.bytes@, 12),
    {
        read_u32_le(&self.bytes, 12)
    }
}

impl QueryVersionCookie {
    /// Redeems the cookie for the version reply once it has been delivered.
    pub fn resolve(&self, c: &mut Connection) -> (r: Result<Option<QueryVersionReply>, XError>)
        requires
            old(c).wf(),
        ensures
            final(c).wf(),
            ({
                let (c2, rr) = old(c)@.spec_try_resolve(self.base);
                final(c)@ == c2 && match (r, rr) {
                    (Ok(Some(rep)), Ok(Some(sb))) => rep.bytes@ == sb && rep.wf(),
                    (Ok(None), Ok(None)) => true,
                    (Err(e), Err(se)) => e == se,
                    _ => false,
                }
            }),
    {
        match c.try_resolve(&self.base) {
            Ok(Some(b)) => Ok(Some(QueryVersionReply { bytes: b })),
            Ok(None) => Ok(None),
            Err(e) => Err(e),
        }
    }
}

/// The trailing fields of a connect reply are consistent with its length:
/// the driver name, its padding to a 4-byte boundary, and the device name
/// all lie inside the buffer.
pub open spec fn connect_reply_valid(s: Seq<u8>) -> bool {
    32 + crate::wire::pad4(u32_at(s, 8) as int) + (u32_at(s, 12) as int) <= s.len()
}

/// The reply to a connect request; owns its buffer.
#[derive(Debug)]
pub struct ConnectReply {
    pub bytes: Vec<u8>,
}

impl ConnectReply {
    /// Header present and trailing variable-length fields within bounds.
    pub open spec fn wf(self) -> bool {
        &&& self.bytes@.len() >= 32
        &&& connect_reply_valid(self.bytes@)
    }

    /// Length of the driver name in bytes.
    pub open spec fn spec_driver_name_length(self) -> u32 {
        u32_at(self.bytes@, 8)
    }

    /// Length of the device name in bytes.
    pub open spec fn spec_device_name_length(self) -> u32 {
        u32_at(self.bytes@, 12)
    }

    /// The driver name, extracted by its length prefix.
    pub fn driver_name(&self) -> (r: Vec<u8>)
        requires
            self.wf(),
        ensures
            r@ == self.bytes@.subrange(32, 32 + self.spec_driver_name_length() as int),
    {
        let ln = self.bytes.len();
        let n1 = read_u32_le(&self.bytes, 8) as usize;
        proof {
            crate::wire::lemma_pad4_bounds(n1 as int);
        }
        crate::wire::copy_range(&self.bytes, 32, n1)
    }

    /// The zero padding between the driver name and the device name: the
    /// bytes up to the next 4-byte boundary.
    pub fn alignment_pad(&self) -> (r: Vec<u8>)
        requires
            self.wf(),
        ensures
            r@ == self.bytes@.subrange(
                32 + self.spec_driver_name_length() as int,
                32 + crate::wire::pad4(self.spec_driver_name_length() as int),
            ),
    {
        let ln = self.bytes.len();
        let n1 = read_u32_le(&self.bytes, 8) as usize;
        proof {
            crate::wire::lemma_pad4_bounds(n1 as int);
        }
        let padded = crate::wire::pad4_len(n1);
        crate::wire::copy_range(&self.bytes, 32 + n1, padded - n1)
    }

    /// The device name, following the padded driver name.
    pub fn device_name(&self) -> (r: Vec<u8>)
        requires
            self.wf(),
        ensures
            r@ == self.bytes@.subrange(
                32 + crate::wire::pad4(self.spec_driver_name_length() as int),
                32 + crate::wire::pad4(self.spec_driver_name_length() as int)
                    + self.spec_device_name_length() as int,
            ),
    {
        let ln = self.bytes.len();
        let n1 = read_u32_le(&self.bytes, 8) as usize;
        let n2 = read_u32_le(&self.bytes, 12) as usize;
        proof {
            crate::wire::lemma_pad4_bounds(n1 as int);
        }
        let padded = crate::wire::pad4_len(n1);
        crate::wire::copy_range(&self.bytes, 32 + padded, n2)
    }
}

impl ConnectCookie {
    /// Redeems the cookie for the connect reply once it has been delivered.
    /// A reply whose length-prefixed names overrun the buffer is malformed,
    /// which is fatal: the connection closes.
    pub fn resolve(&self, c: &mut Connection) -> (r: Result<Option<ConnectReply>, XError>)
        requires
            old(c).wf(),
        ensures
            final(c).wf(),
            ({
                let (c2, rr) = old(c)@.spec_try_resolve(self.base);
                match (r, rr) {
                    (Ok(Some(rep)), Ok(Some(sb))) => final(c)@ == c2 && rep.bytes@ == sb
                        && rep.wf(),
                    (Ok(None), Ok(None)) => final(c)@ == c2,
                    (Err(XError::Malformed), Ok(Some(sb))) => !connect_reply_valid(sb)
                        && final(c)@ == c2.spec_close(),
                    (Err(e), Err(se)) => final(c)@ == c2 && e == se,
                    _ => false,
                }
            }),
    {
        match c.try_resolve(&self.base) {
            Ok(Some(b)) => {
                let n1 = read_u32_le(&b, 8) as u64;
                let n2 = read_u32_le(&b, 12) as u64;
                let padded = ((n1 + 3) / 4) * 4;
                if 32 + padded + n2 <= b.len() as u64 {
                    Ok(Some(ConnectReply { bytes: b }))
                } else {
                    c.close();
                    Err(XError::Malformed)
                }
            },
            Ok(None) => Ok(None),
            Err(e) => Err(e),
        }
    }
}

/// The reply to an authenticate request; owns its buffer.
#[derive(Debug)]
pub struct AuthenticateReply {
    pub bytes: Vec<u8>,
}

impl AuthenticateReply {
    /// The buffer holds at least the fixed reply header.
    pub open spec fn wf(self) -> bool {
        self.bytes@.len() >= 32
    }

    pub fn authenticated(&self) -> (r: u32)
        requires
            self.wf(),
        ensures
            r == u32_at(self.bytes@, 8),
    {
        read_u32_le(&self.bytes, 8)
    }
}

impl AuthenticateCookie {
    /// Redeems the cookie for the authenticate reply once delivered.
    pub fn resolve(&self, c: &mut Connection) -> (r: Result<Option<AuthenticateReply>, XError>)
        requires
            old(c).wf(),
        ensures
            final(c).wf(),
            ({
                let (c2, rr) = old(c)@.spec_try_resolve(self.base);
                final(c)@ == c2 && match (r, rr) {
                    (Ok(Some(rep)), Ok(Some(sb))) => rep.bytes@ == sb && rep.wf(),
                    (Ok(None), Ok(None)) => true,
                    (Err(e), Err(se)) => e == se,
                    _ => false,
                }
            }),
    {
        match c.try_resolve(&self.base) {
            Ok(Some(b)) => Ok(Some(AuthenticateReply { bytes: b })),
            Ok(None) => Ok(None),
            Err(e) => Err(e),
        }
    }
}

/// The packed buffer records declared by the count field all lie inside the
/// buffer.
pub open spec fn buffers_reply_valid(s: Seq<u8>) -> bool {
    32 + DRI2_BUFFER_SIZE * (u32_at(s, 16) as int) <= s.len()
}

/// The reply to a buffer query; owns its buffer.
#[derive(Debug)]
pub struct GetBuffersReply {
    pub bytes: Vec<u8>,
}

impl GetBuffersReply {
    /// Header present and the declared record list within bounds.
    pub open spec fn wf(self) -> bool {
        &&& self.bytes@.len() >= 32
        &&& buffers_reply_valid(self.bytes@)
    }

    /// Number of packed buffer records.
    pub open spec fn spec_count(self) -> u32 {
        u32_at(self.bytes@, 16)
    }

    pub fn width(&self) -> (r: u32)
        requires
            self.wf(),
        ensures
            r == u32_at(self.bytes@, 8),
    {
        read_u32_le(&self.bytes, 8)
    }

    pub fn height(&self) -> (r: u32)
        requires
            self.wf(),
        ensures
            r == u32_at(self.bytes@, 12),
    {
        read_u32_le(&self.bytes, 12)
    }

    pub fn count(&self) -> (r: u32)
        requires
            self.wf(),
        ensures
            r == self.spec_count(),
    {
        read_u32_le(&self.bytes, 16)
    }

    /// A fresh iterator over the packed buffer records.
    pub fn buffers(&self) -> (it: Dri2BufferIterator)
        requires
            self.wf(),
        ensures
            it.wf_for(self.bytes@),
            it.cur.off == 32,
            it.cur.rem == self.spec_count(),
            it.cur.limit == 32 + DRI2_BUFFER_SIZE * it.cur.rem,
    {
        let ln = self.bytes.len();
        let cnt = read_u32_le(&self.bytes, 16) as usize;
        let limit = 32 + DRI2_BUFFER_SIZE * cnt;
        Dri2BufferIterator { cur: FixedCursor::new(32, cnt, DRI2_BUFFER_SIZE, limit) }
    }
}

impl GetBuffersCookie {
    /// Redeems the cookie for the buffer-query reply once delivered. A reply
    /// whose declared record count overruns the buffer is malformed, which is
    /// fatal: the connection closes.
    pub fn resolve(&self, c: &mut Connection) -> (r: Result<Option<GetBuffersReply>, XError>)
        requires
            old(c).wf(),
        ensures
            final(c).wf(),
            ({
                let (c2, rr) = old(c)@.spec_try_resolve(self.base);
                match (r, rr) {
                    (Ok(Some(rep)), Ok(Some(sb))) => final(c)@ == c2 && rep.bytes@ == sb
                        && rep.wf(),
                    (Ok(None), Ok(None)) => final(c)@ == c2,
                    (Err(XError::Malformed), Ok(Some(sb))) => !buffers_reply_valid(sb)
                        && final(c)@ == c2.spec_close(),
                    (Err(e), Err(se)) => final(c)@ == c2 && e == se,
                    _ => false,
                }
            }),
    {
        match c.try_resolve(&self.base) {
            Ok(Some(b)) => {
                let cnt = read_u32_le(&b, 16) as u64;
                if 32 + (DRI2_BUFFER_SIZE as u64) * cnt <= b.len() as u64 {
                    Ok(Some(GetBuffersReply { bytes: b }))
                } else {
                    c.close();
                    Err(XError::Malformed)
                }
            },
            Ok(None) => Ok(None),
            Err(e) => Err(e),
        }
    }
}

/// The reply to a region copy; owns its buffer and carries no fields beyond
/// the header.
#[derive(Debug)]
pub struct CopyRegionReply {
    pub bytes: Vec<u8>,
}

impl CopyRegionReply {
    /// The buffer holds at least the fixed reply header.
    pub open spec fn wf(self) -> bool {
        self.bytes@.len() >= 32
    }
}

impl CopyRegionCookie {
    /// Redeems the cookie for the region-copy acknowledgment once delivered.
    pub fn resolve(&self, c: &mut Connection) -> (r: Result<Option<CopyRegionReply>, XError>)
        requires
            old(c).wf(),
        ensures
            final(c).wf(),
            ({
                let (c2, rr) = old(c)@.spec_try_resolve(self.base);
                final(c)@ == c2 && match (r, rr) {
                    (Ok(Some(rep)), Ok(Some(sb))) => rep.bytes@ == sb && rep.wf(),
                    (Ok(None), Ok(None)) => true,
                    (Err(e), Err(se)) => e == se,
                    _ => false,
                }
            }),
    {
        match c.try_resolve(&self.base) {
            Ok(Some(b)) => Ok(Some(CopyRegionReply { bytes: b })),
            Ok(None) => Ok(None),
            Err(e) => Err(e),
        }
    }
}

/// The reply to a format-qualified buffer query; owns its buffer.
#[derive(Debug)]
pub struct GetBuffersWithFormatReply {
    pub bytes: Vec<u8>,
}

impl GetBuffersWithFormatReply {
    /// Header present and the declared record list within bounds.
    pub open spec fn wf(self) -> bool {
        &&& self.bytes@.len() >= 32
        &&& buffers_reply_valid(self.bytes@)
    }

    /// Number of packed buffer records.
    pub open spec fn spec_count(self) -> u32 {
        u32_at(self.bytes@, 16)
    }

    pub fn width(&self) -> (r: u32)
        requires
            self.wf(),
        ensures
            r == u32_at(self.bytes@, 8),
    {
        read_u32_le(&self.bytes, 8)
    }

    pub fn height(&self) -> (r: u32)
        requires
            self.wf(),
        ensures
            r == u32_at(self.bytes@, 12),
    {
        read_u32_le(&self.bytes, 12)
    }

    /// A fresh iterator over the packed buffer records.
    pub fn buffers(&self) -> (it: Dri2BufferIterator)
        requires
            self.wf(),
        ensures
            it.wf_for(self.bytes@),
            it.cur.off == 32,
            it.cur.rem == self.spec_count(),
            it.cur.limit == 32 + DRI2_BUFFER_SIZE * it.cur.rem,
    {
        let ln = self.bytes.len();
        let cnt = read_u32_le(&self.bytes, 16) as usize;
        let limit = 32 + DRI2_BUFFER_SIZE * cnt;
        Dri2BufferIterator { cur: FixedCursor::new(32, cnt, DRI2_BUFFER_SIZE, limit) }
    }
}

impl GetBuffersWithFormatCookie {
    /// Redeems the cookie for the format-qualified buffer-query reply once
    /// delivered. A reply whose declared record count overruns the buffer is
    /// malformed, which is fatal: the connection closes.
    pub fn resolve(&self, c: &mut Connection) -> (r: Result<
        Option<GetBuffersWithFormatReply>,
        XError,
    >)
        requires
            old(c).wf(),
        ensures
            final(c).wf(),
            ({
                let (c2, rr) = old(c)@.spec_try_resolve(self.base);
                match (r, rr) {
                    (Ok(Some(rep)), Ok(Some(sb))) => final(c)@ == c2 && rep.bytes@ == sb
                        && rep.wf(),
                    (Ok(None), Ok(None)) => final(c)@ == c2,
                    (Err(XError::Malformed), Ok(Some(sb))) => !buffers_reply_valid(sb)
                        && final(c)@ == c2.spec_close(),
                    (Err(e), Err(se)) => final(c)@ == c2 && e == se,
                    _ => false,
                }
            }),
    {
        match c.try_resolve(&self.base) {
            Ok(Some(b)) => {
                let cnt = read_u32_le(&b, 16) as u64;
                if 32 + (DRI2_BUFFER_SIZE as u64) * cnt <= b.len() as u64 {
                    Ok(Some(GetBuffersWithFormatReply { bytes: b }))
                } else {
                    c.close();
                    Err(XError::Malformed)
                }
            },
            Ok(None) => Ok(None),
            Err(e) => Err(e),
        }
    }
}

/// The reply to a buffer swap; owns its buffer.
#[derive(Debug)]
pub struct SwapBuffersReply {
    pub bytes: Vec<u8>,
}

impl SwapBuffersReply {
    /// The buffer holds at least the fixed reply header.
    pub open spec fn wf(self) -> bool {
        self.bytes@.len() >= 32
    }

    pub fn swap_hi(&self) -> (r: u32)
        requires
            self.wf(),
        ensures
            r == u32_at(self.bytes@, 8),
    {
        read_u32_le(&self.bytes, 8)
    }

    pub fn swap_lo(&self) -> (r: u32)
        requires
            self.wf(),
        ensures
            r == u32_at(self.bytes@, 12),
    {
        read_u32_le(&self.bytes, 12)
    }
}

impl SwapBuffersCookie {
    /// Redeems the cookie for the buffer-swap reply once delivered.
    pub fn resolve(&self, c: &mut Connection) -> (r: Result<Option<SwapBuffersReply>, XError>)
        requires
            old(c).wf(),
        ensures
            final(c).wf(),
            ({
                let (c2, rr) = old(c)@.spec_try_resolve(self.base);
                final(c)@ == c2 && match (r, rr) {
                    (Ok(Some(rep)), Ok(Some(sb))) => rep.bytes@ == sb && rep.wf(),
                    (Ok(None), Ok(None)) => true,
                    (Err(e), Err(se)) => e == se,
                    _ => false,
                }
            }),
    {
        match c.try_resolve(&self.base) {
            Ok(Some(b)) => Ok(Some(SwapBuffersReply { bytes: b })),
            Ok(None) => Ok(None),
            Err(e) => Err(e),
        }
    }
}

/// The reply to a media-stamp counter query; owns its buffer.
#[derive(Debug)]
pub struct GetMscReply {
    pub bytes: Vec<u8>,
}

impl GetMscReply {
    /// The buffer holds at least the fixed reply header.
    pub open spec fn wf(self) -> bool {
        self.bytes@.len() >= 32
    }

    pub fn ust_hi(&self) -> (r: u32)
        requires
            self.wf(),
        ensures
            r == u32_at(self.bytes@, 8),
    {
        read_u32_le(&self.bytes, 8)
    }

    pub fn ust_lo(&self) -> (r: u32)
        requires
            self.wf(),
        ensures
            r == u32_at(self.bytes@, 12),
    {
        read_u32_le(&self.bytes, 12)
    }

    pub fn msc_hi(&self) -> (r: u32)
        requires
            self.wf(),
        ensures
            r == u32_at(self.bytes@, 16),
    {
        read_u32_le(&self.bytes, 16)
    }

    pub fn msc_lo(&self) -> (r: u32)
        requires
            self.wf(),
        ensures
            r == u32_at(self.bytes@, 20),
    {
        read_u32_le(&self.bytes, 20)
    }

    pub fn sbc_hi(&self) -> (r: u32)
        requires
            self.wf(),
        ensures
            r == u32_at(self.bytes@, 24),
    {
        read_u32_le(&self.bytes, 24)
    }

    pub fn sbc_lo(&self) -> (r: u32)
        requires
            self.wf(),
        ensures
            r == u32_at(self.bytes@, 28),
    {
        read_u32_le(&self.bytes, 28)
    }
}

impl GetMscCookie {
    /// Redeems the cookie for the counter reply once delivered.
    pub fn resolve(&self, c: &mut Connection) -> (r: Result<Option<GetMscReply>, XError>)
        requires
            old(c).wf(),
        ensures
            final(c).wf(),
            ({
                let (c2, rr) = old(c)@.spec_try_resolve(self.base);
                final(c)@ == c2 && match (r, rr) {
                    (Ok(Some(rep)), Ok(Some(sb))) => rep.bytes@ == sb && rep.wf(),
                    (Ok(None), Ok(None)) => true,
                    (Err(e), Err(se)) => e == se,
                    _ => false,
                }
            }),
    {
        match c.try_resolve(&self.base) {
            Ok(Some(b)) => Ok(Some(GetMscReply { bytes: b })),
            Ok(None) => Ok(None),
            Err(e) => Err(e),
        }
    }
}

/// The reply to a media-stamp counter wait; owns its buffer.
#[derive(Debug)]
pub struct WaitMscReply {
    pub bytes: Vec<u8>,
}

impl WaitMscReply {
    /// The buffer holds at least the fixed reply header.
    pub open spec fn wf(self) -> bool {
        self.bytes@.len() >= 32
    }

    pub fn ust_hi(&self) -> (r: u32)
        requires
            self.wf(),
        ensures
            r == u32_at(self.bytes@, 8),
    {
        read_u32_le(&self.bytes, 8)
    }

    pub fn ust_lo(&self) -> (r: u32)
        requires
            self.wf(),
        ensures
            r == u32_at(self.bytes@, 12),
    {
        read_u32_le(&self.bytes, 12)
    }

    pub fn msc_hi(&self) -> (r: u32)
        requires
            self.wf(),
        ensures
            r == u32_at(self.bytes@, 16),
    {
        read_u32_le(&self.bytes, 16)
    }

    pub fn msc_lo(&self) -> (r: u32)
        requires
            self.wf(),
        ensures
            r == u32_at(self.bytes@, 20),
    {
        read_u32_le(&self.bytes, 20)
    }

    pub fn sbc_hi(&self) -> (r: u32)
        requires
            self.wf(),
        ensures
            r == u32_at(self.bytes@, 24),
    {
        read_u32_le(&self.bytes, 24)
    }

    pub fn sbc_lo(&self) -> (r: u32)
        requires
            self.wf(),
        ensures
            r == u32_at(self.bytes@, 28),
    {
        read_u32_le(&self.bytes, 28)
    }
}

impl WaitMscCookie {
    /// Redeems the cookie for the wait reply once delivered.
    pub fn resolve(&self, c: &mut Connection) -> (r: Result<Option<WaitMscReply>, XError>)
        requires
            old(c).wf(),
        ensures
            final(c).wf(),
            ({
                let (c2, rr) = old(c)@.spec_try_resolve(self.base);
                final(c)@ == c2 && match (r, rr) {
                    (Ok(Some(rep)), Ok(Some(sb))) => rep.bytes@ == sb && rep.wf(),
                    (Ok(None), Ok(None)) => true,
                    (Err(e), Err(se)) => e == se,
                    _ => false,
                }
            }),
    {
        match c.try_resolve(&self.base) {
            Ok(Some(b)) => Ok(Some(WaitMscReply { bytes: b })),
            Ok(None) => Ok(None),
            Err(e) => Err(e),
        }
    }
}

/// The reply to a swap-count wait; owns its buffer.
#[derive(Debug)]
pub struct WaitSbcReply {
    pub bytes: Vec<u8>,
}

impl WaitSbcReply {
    /// The buffer holds at least the fixed reply header.
    pub open spec fn wf(self) -> bool {
        self.bytes@.len() >= 32
    }

    pub fn ust_hi(&self) -> (r: u32)
        requires
            self.wf(),
        ensures
            r == u32_at(self.bytes@, 8),
    {
        read_u32_le(&self.bytes, 8)
    }

    pub fn ust_lo(&self) -> (r: u32)
        requires
            self.wf(),
        ensures
            r == u32_at(self.bytes@, 12),
    {
        read_u32_le(&self.bytes, 12)
    }

    pub fn msc_hi(&self) -> (r: u32)
        requires
            self.wf(),
        ensures
            r == u32_at(self.bytes@, 16),
    {
        read_u32_le(&self.bytes, 16)
    }

    pub fn msc_lo(&self) -> (r: u32)
        requires
            self.wf(),
        ensures
            r == u32_at(self.bytes@, 20),
    {
        read_u32_le(&self.bytes, 20)
    }

    pub fn sbc_hi(&self) -> (r: u32)
        requires
            self.wf(),
        ensures
            r == u32_at(self.bytes@, 24),
    {
        read_u32_le(&self.bytes, 24)
    }

    pub fn sbc_lo(&self) -> (r: u32)
        requires
            self.wf(),
        ensures
            r == u32_at(self.bytes@, 28),
    {
        read_u32_le(&self.bytes, 28)
    }
}

impl WaitSbcCookie {
    /// Redeems the cookie for the wait reply once delivered.
    pub fn resolve(&self, c: &mut Connection) -> (r: Result<Option<WaitSbcReply>, XError>)
        requires
            old(c).wf(),
        ensures
            final(c).wf(),
            ({
                let (c2, rr) = old(c)@.spec_try_resolve(self.base);
                final(c)@ == c2 && match (r, rr) {
                    (Ok(Some(rep)), Ok(Some(sb))) => rep.bytes@ == sb && rep.wf(),
                    (Ok(None), Ok(None)) => true,
                    (Err(e), Err(se)) => e == se,
                    _ => false,
                }
            }),
    {
        match c.try_resolve(&self.base) {
            Ok(Some(b)) => Ok(Some(WaitSbcReply { bytes: b })),
            Ok(None) => Ok(None),
            Err(e) => Err(e),
        }
    }
}

/// The reply to a parameter query; owns its buffer.
#[derive(Debug)]
pub struct GetParamReply {
    pub bytes: Vec<u8>,
}

impl GetParamReply {
    /// The buffer holds at least the fixed reply header.
    pub open spec fn wf(self) -> bool {
        self.bytes@.len() >= 32
    }

    pub fn is_param_recognized(&self) -> (r: u8)
        requires
            self.wf(),
        ensures
            r == self.bytes@[1],
    {
        self.bytes[1]
    }

    pub fn value_hi(&self) -> (r: u32)
        requires
            self.wf(),
        ensures
            r == u32_at(self.bytes@, 8),
    {
        read_u32_le(&self.bytes, 8)
    }

    pub fn value_lo(&self) -> (r: u32)
        requires
            self.wf(),
        ensures
            r == u32_at(self.bytes@, 12),
    {
        read_u32_le(&self.bytes, 12)
    }
}

impl GetParamCookie {
    /// Redeems the cookie for the parameter reply once delivered.
    pub fn resolve(&self, c: &mut Connection) -> (r: Result<Option<GetParamReply>, XError>)
        requires
            old(c).wf(),
        ensures
            final(c).wf(),
            ({
                let (c2, rr) = old(c)@.spec_try_resolve(self.base);
                final(c)@ == c2 && match (r, rr) {
                    (Ok(Some(rep)), Ok(Some(sb))) => rep.bytes@ == sb && rep.wf(),
                    (Ok(None), Ok(None)) => true,
                    (Err(e), Err(se)) => e == se,
                    _ => false,
                }
            }),
    {
        match c.try_resolve(&self.base) {
            Ok(Some(b)) => Ok(Some(GetParamReply { bytes: b })),
            Ok(None) => Ok(None),
            Err(e) => Err(e),
        }
    }
}

/// The buffer-swap-complete event, as typed fields.
#[derive(Clone, Copy, PartialEq, Eq, Structural, Debug)]
pub struct BufferSwapCompleteEvent {
    pub event_type: u16,
    pub drawable: xproto::Drawable,
    pub ust_hi: u32,
    pub ust_lo: u32,
    pub msc_hi: u32,
    pub msc_lo: u32,
    pub sbc: u32,
}

/// The invalidate-buffers event, as typed fields.
#[derive(Clone, Copy, PartialEq, Eq, Structural, Debug)]
pub struct InvalidateBuffersEvent {
    pub drawable: xproto::Drawable,
}

/// An event of this extension, keyed by its extension-relative code.
#[derive(Clone, Copy, PartialEq, Eq, Structural, Debug)]
pub enum Dri2Event {
    BufferSwapComplete(BufferSwapCompleteEvent),
    InvalidateBuffers(InvalidateBuffersEvent),
}

/// The 32-byte wire form of a buffer-swap-complete event under a negotiated
/// event base: fields in declaration order, unused trailing bytes zero.
pub open spec fn buffer_swap_complete_bytes(
    e: BufferSwapCompleteEvent,
    first_event: u8,
    wire_seq: u16,
) -> Seq<u8> {
    seq![first_event, 0u8] + u16_le(wire_seq) + u16_le(e.event_type) + seq![0u8, 0u8] + u32_le(
        e.drawable,
    ) + u32_le(e.ust_hi) + u32_le(e.ust_lo) + u32_le(e.msc_hi) + u32_le(e.msc_lo) + u32_le(e.sbc)
}

/// The 32-byte wire form of an invalidate-buffers event under a negotiated
/// event base, zero-filled past its one field.
pub open spec fn invalidate_buffers_bytes(
    e: InvalidateBuffersEvent,
    first_event: u8,
    wire_seq: u16,
) -> Seq<u8> {
    seq![(first_event + XCB_DRI2_INVALIDATE_BUFFERS) as u8, 0u8] + u16_le(wire_seq) + u32_le(
        e.drawable,
    ) + Seq::new(24, |i: int| 0u8)
}

/// The typed view of a 32-byte event buffer, keyed by its code relative to
/// the negotiated event base (the send-event flag bit is ignored).
pub open spec fn spec_decode_event(s: Seq<u8>, first_event: u8) -> Option<Dri2Event> {
    if s.len() != 32 {
        None
    } else {
        let code = s[0] & 0x7f;
        if code == first_event {
            Some(
                Dri2Event::BufferSwapComplete(
                    BufferSwapCompleteEvent {
                        event_type: u16_at(s, 4),
                        drawable: u32_at(s, 8),
                        ust_hi: u32_at(s, 12),
                        ust_lo: u32_at(s, 16),
                        msc_hi: u32_at(s, 20),
                        msc_lo: u32_at(s, 24),
                        sbc: u32_at(s, 28),
                    },
                ),
            )
        } else if code as int == first_event as int + XCB_DRI2_INVALIDATE_BUFFERS as int {
            Some(Dri2Event::InvalidateBuffers(InvalidateBuffersEvent { drawable: u32_at(s, 4) }))
        } else {
            None
        }
    }
}

/// Dispatches a 32-byte event buffer to its typed view by the opcode
/// recovered from the extension's negotiated event base.
pub fn decode_event(buf: &Vec<u8>, first_event: u8) -> (r: Option<Dri2Event>)
    ensures
        r == spec_decode_event(buf@, first_event),
{
    if buf.len() != 32 {
        return None;
    }
    let code = buf[0] & 0x7f;
    if code == first_event {
        Some(
            Dri2Event::BufferSwapComplete(
                BufferSwapCompleteEvent {
                    event_type: read_u16_le(buf, 4),
                    drawable: read_u32_le(buf, 8),
                    ust_hi: read_u32_le(buf, 12),
                    ust_lo: read_u32_le(buf, 16),
                    msc_hi: read_u32_le(buf, 20),
                    msc_lo: read_u32_le(buf, 24),
                    sbc: read_u32_le(buf, 28),
                },
            ),
        )
    } else if (code as u16) == (first_event as u16) + (XCB_DRI2_INVALIDATE_BUFFERS as u16) {
        Some(Dri2Event::InvalidateBuffers(InvalidateBuffersEvent { drawable: read_u32_le(buf, 4) }))
    } else {
        None
    }
}

impl BufferSwapCompleteEvent {
    /// Synthesizes the event from typed fields.
    pub fn new(
        event_type: u16,
        drawable: xproto::Drawable,
        ust_hi: u32,
        ust_lo: u32,
        msc_hi: u32,
        msc_lo: u32,
        sbc: u32,
    ) -> (r: BufferSwapCompleteEvent)
        ensures
            r == (BufferSwapCompleteEvent {
                event_type,
                drawable,
                ust_hi,
                ust_lo,
                msc_hi,
                msc_lo,
                sbc,
            }),
    {
        BufferSwapCompleteEvent { event_type, drawable, ust_hi, ust_lo, msc_hi, msc_lo, sbc }
    }

    pub fn event_type(&self) -> (r: u16)
        ensures
            r == self.event_type,
    {
        self.event_type
    }

    pub fn drawable(&self) -> (r: xproto::Drawable)
        ensures
            r == self.drawable,
    {
        self.drawable
    }

    pub fn ust_hi(&self) -> (r: u32)
        ensures
            r == self.ust_hi,
    {
        self.ust_hi
    }

    pub fn ust_lo(&self) -> (r: u32)
        ensures
            r == self.ust_lo,
    {
        self.ust_lo
    }

    pub fn msc_hi(&self) -> (r: u32)
        ensures
            r == self.msc_hi,
    {
        self.msc_hi
    }

    pub fn msc_lo(&self) -> (r: u32)
        ensures
            r == self.msc_lo,
    {
        self.msc_lo
    }

    pub fn sbc(&self) -> (r: u32)
        ensures
            r == self.sbc,
    {
        self.sbc
    }

    /// Serializes the event to its 32-byte wire buffer under the extension's
    /// negotiated event base, zero-filling pad bytes.
    pub fn serialize(&self, first_event: u8, wire_seq: u16) -> (r: Vec<u8>)
        ensures
            r@ == buffer_swap_complete_bytes(*self, first_event, wire_seq),
            r@.len() == 32,
    {
        let mut out: Vec<u8> = Vec::new();
        out.push(first_event);
        out.push(0u8);
        push_u16_le(&mut out, wire_seq);
        push_u16_le(&mut out, self.event_type);
        out.push(0u8);
        out.push(0u8);
        push_u32_le(&mut out, self.drawable);
        push_u32_le(&mut out, self.ust_hi);
        push_u32_le(&mut out, self.ust_lo);
        push_u32_le(&mut out, self.msc_hi);
        push_u32_le(&mut out, self.msc_lo);
        push_u32_le(&mut out, self.sbc);
        proof {
            assert(out@ =~= buffer_swap_complete_bytes(*self, first_event, wire_seq));
        }
        out
    }
}

impl InvalidateBuffersEvent {
    /// Synthesizes the event from its typed field.
    pub fn new(drawable: xproto::Drawable) -> (r: InvalidateBuffersEvent)
        ensures
            r == (InvalidateBuffersEvent { drawable }),
    {
        InvalidateBuffersEvent { drawable }
    }

    pub fn drawable(&self) -> (r: xproto::Drawable)
        ensures
            r == self.drawable,
    {
        self.drawable
    }

    /// Serializes the event to its 32-byte wire buffer under the extension's
    /// negotiated event base, zero-filling the unused trailing bytes.
    pub fn serialize(&self, first_event: u8, wire_seq: u16) -> (r: Vec<u8>)
        requires
            first_event + XCB_DRI2_INVALIDATE_BUFFERS <= 255,
        ensures
            r@ == invalidate_buffers_bytes(*self, first_event, wire_seq),
            r@.len() == 32,
    {
        let mut out: Vec<u8> = Vec::new();
        out.push(first_event + XCB_DRI2_INVALIDATE_BUFFERS);
        out.push(0u8);
        push_u16_le(&mut out, wire_seq);
        push_u32_le(&mut out, self.drawable);
        crate::wire::push_zeros(&mut out, 24);
        proof {
            assert(out@ =~= invalidate_buffers_bytes(*self, first_event, wire_seq));
        }
        out
    }
}

/// Law: round trip — a buffer-swap-complete event synthesized from typed
/// fields and serialized, then decoded through the event decoder under the
/// same event base, yields exactly those fields.
pub proof fn lemma_buffer_swap_complete_roundtrip(
    e: BufferSwapCompleteEvent,
    first_event: u8,
    wire_seq: u16,
)
    requires
        first_event <= 0x7f,
    ensures
        spec_decode_event(buffer_swap_complete_bytes(e, first_event, wire_seq), first_event)
            == Some(Dri2Event::BufferSwapComplete(e)),
{
    let s = buffer_swap_complete_bytes(e, first_event, wire_seq);
    assert(s.len() == 32);
    assert(s[0] == first_event);
    assert(first_event & 0x7f == first_event) by (bit_vector)
        requires
            first_event <= 0x7f,
    ;
    crate::wire::lemma_u16_le_from(e.event_type);
    assert(u16_at(s, 4) == e.event_type);
    crate::wire::lemma_u32_le_from(e.drawable);
    assert(u32_at(s, 8) == e.drawable);
    crate::wire::lemma_u32_le_from(e.ust_hi);
    assert(u32_at(s, 12) == e.ust_hi);
    crate::wire::lemma_u32_le_from(e.ust_lo);
    assert(u32_at(s, 16) == e.ust_lo);
    crate::wire::lemma_u32_le_from(e.msc_hi);
    assert(u32_at(s, 20) == e.msc_hi);
    crate::wire::lemma_u32_le_from(e.msc_lo);
    assert(u32_at(s, 24) == e.msc_lo);
    crate::wire::lemma_u32_le_from(e.sbc);
    assert(u32_at(s, 28) == e.sbc);
}

/// Law: round trip — an invalidate-buffers event synthesized, serialized and
/// decoded under the same event base yields exactly its fields.
pub proof fn lemma_invalidate_buffers_roundtrip(
    e: InvalidateBuffersEvent,
    first_event: u8,
    wire_seq: u16,
)
    requires
        first_event + XCB_DRI2_INVALIDATE_BUFFERS <= 0x7f,
    ensures
        spec_decode_event(invalidate_buffers_bytes(e, first_event, wire_seq), first_event) == Some(
            Dri2Event::InvalidateBuffers(e),
        ),
{
    let s = invalidate_buffers_bytes(e, first_event, wire_seq);
    assert(s.len() == 32);
    let code = (first_event + XCB_DRI2_INVALIDATE_BUFFERS) as u8;
    assert(s[0] == code);
    assert(code & 0x7f == code && code != first_event) by (bit_vector)
        requires
            code == first_event + 1,
            first_event + 1 <= 0x7f,
    ;
    crate::wire::lemma_u32_le_from(e.drawable);
    assert(u32_at(s, 4) == e.drawable);
}

} // verus!
