//! The Xv extension: video adaptors, ports and image transport. One builder
//! per protocol request, one record type per protocol-defined structure,
//! decoders for the extension's events and errors.

#![allow(non_snake_case)]

use vstd::prelude::*;
use crate::connection::{Connection, Cookie, VoidCookie, PendingKind, ExtensionInfo};
use crate::cursor::FixedCursor;
use crate::error::{XError, ProtocolError};
use crate::wire::{
    u16_le, u32_le, u16_at, u32_at, i16_as_u16, u32_as_i32, i32_as_u32, pad4, u32_list_at,
    push_u16_le, push_u32_le, push_bytes, push_zeros, read_u16_le, read_u32_le, read_u32_list,
    copy_range, pad4_len, i16_to_u16, u32_to_i32, i32_to_u32, lemma_pad4_bounds,
};
use crate::xproto;
use crate::shm;

verus! {

/// Name under which the server knows the extension: `XVideo`.
pub open spec fn extension_name() -> Seq<u8> {
    seq![0x58u8, 0x56u8, 0x69u8, 0x64u8, 0x65u8, 0x6fu8]
}

/// The extension's name as a byte string, for the opcode registry.
pub fn name() -> (r: Vec<u8>)
    ensures
        r@ == extension_name(),
{
    let mut out: Vec<u8> = Vec::new();
    out.push(0x58u8);
    out.push(0x56u8);
    out.push(0x69u8);
    out.push(0x64u8);
    out.push(0x65u8);
    out.push(0x6fu8);
    proof {
        assert(out@ =~= extension_name());
    }
    out
}

/// A video port identifier: a 32-bit resource id on the wire.
pub type Port = u32;

/// An encoding identifier: a 32-bit resource id on the wire.
pub type Encoding = u32;

pub type xcb_xv_type_t = u32;

pub const XCB_XV_TYPE_INPUT_MASK: xcb_xv_type_t = 1;

pub const XCB_XV_TYPE_OUTPUT_MASK: xcb_xv_type_t = 2;

pub const XCB_XV_TYPE_VIDEO_MASK: xcb_xv_type_t = 4;

pub const XCB_XV_TYPE_STILL_MASK: xcb_xv_type_t = 8;

pub const XCB_XV_TYPE_IMAGE_MASK: xcb_xv_type_t = 16;

pub type xcb_xv_image_format_info_type_t = u32;

pub const XCB_XV_IMAGE_FORMAT_INFO_TYPE_RGB: xcb_xv_image_format_info_type_t = 1;

pub const XCB_XV_IMAGE_FORMAT_INFO_TYPE_YUV: xcb_xv_image_format_info_type_t = 2;

pub type xcb_xv_image_format_info_format_t = u32;

pub const XCB_XV_IMAGE_FORMAT_INFO_FORMAT_PACKED: xcb_xv_image_format_info_format_t = 1;

pub const XCB_XV_IMAGE_FORMAT_INFO_FORMAT_PLANAR: xcb_xv_image_format_info_format_t = 2;

pub type xcb_xv_attribute_flag_t = u32;

pub const XCB_XV_ATTRIBUTE_FLAG_GETTABLE: xcb_xv_attribute_flag_t = 1;

pub const XCB_XV_ATTRIBUTE_FLAG_SETTABLE: xcb_xv_attribute_flag_t = 2;

pub type xcb_xv_video_notify_reason_t = u32;

pub const XCB_XV_VIDEO_NOTIFY_REASON_STARTED: xcb_xv_video_notify_reason_t = 1;

pub const XCB_XV_VIDEO_NOTIFY_REASON_STOPPED: xcb_xv_video_notify_reason_t = 2;

pub const XCB_XV_VIDEO_NOTIFY_REASON_BUSY: xcb_xv_video_notify_reason_t = 3;

pub const XCB_XV_VIDEO_NOTIFY_REASON_PREEMPTED: xcb_xv_video_notify_reason_t = 4;

pub const XCB_XV_VIDEO_NOTIFY_REASON_HARD_ERROR: xcb_xv_video_notify_reason_t = 5;

pub type xcb_xv_scanline_order_t = u32;

pub const XCB_XV_SCANLINE_ORDER_TOP_TO_BOTTOM: xcb_xv_scanline_order_t = 1;

pub const XCB_XV_SCANLINE_ORDER_BOTTOM_TO_TOP: xcb_xv_scanline_order_t = 2;

pub type xcb_xv_grab_port_status_t = u32;

pub const XCB_XV_GRAB_PORT_STATUS_SUCCESS: xcb_xv_grab_port_status_t = 1;

pub const XCB_XV_GRAB_PORT_STATUS_BAD_EXTENSION: xcb_xv_grab_port_status_t = 2;

pub const XCB_XV_GRAB_PORT_STATUS_ALREADY_GRABBED: xcb_xv_grab_port_status_t = 3;

pub const XCB_XV_GRAB_PORT_STATUS_INVALID_TIME: xcb_xv_grab_port_status_t = 4;

pub const XCB_XV_GRAB_PORT_STATUS_BAD_REPLY: xcb_xv_grab_port_status_t = 5;

pub const XCB_XV_GRAB_PORT_STATUS_BAD_ALLOC: xcb_xv_grab_port_status_t = 6;

/// Extension-relative code of the bad-port error.
pub const XCB_XV_BAD_PORT: u8 = 0;

/// Extension-relative code of the bad-encoding error.
pub const XCB_XV_BAD_ENCODING: u8 = 1;

/// Extension-relative code of the bad-control error.
pub const XCB_XV_BAD_CONTROL: u8 = 2;

/// Extension-relative code of the video-notify event.
pub const XCB_XV_VIDEO_NOTIFY: u8 = 0;

/// Extension-relative code of the port-notify event.
pub const XCB_XV_PORT_NOTIFY: u8 = 1;

/// Extension-relative opcode for the extension version query.
pub const XCB_XV_QUERY_EXTENSION: u8 = 0;

/// Extension-relative opcode for the adaptor query.
pub const XCB_XV_QUERY_ADAPTORS: u8 = 1;

/// Extension-relative opcode for the encoding query.
pub const XCB_XV_QUERY_ENCODINGS: u8 = 2;

/// Extension-relative opcode for the port grab.
pub const XCB_XV_GRAB_PORT: u8 = 3;

/// Extension-relative opcode for the port release.
pub const XCB_XV_UNGRAB_PORT: u8 = 4;

/// Extension-relative opcode for putting video.
pub const XCB_XV_PUT_VIDEO: u8 = 5;

/// Extension-relative opcode for putting a still.
pub const XCB_XV_PUT_STILL: u8 = 6;

/// Extension-relative opcode for getting video.
pub const XCB_XV_GET_VIDEO: u8 = 7;

/// Extension-relative opcode for getting a still.
pub const XCB_XV_GET_STILL: u8 = 8;

/// Extension-relative opcode for stopping video.
pub const XCB_XV_STOP_VIDEO: u8 = 9;

/// Extension-relative opcode for selecting video-notify delivery.
pub const XCB_XV_SELECT_VIDEO_NOTIFY: u8 = 10;

/// Extension-relative opcode for selecting port-notify delivery.
pub const XCB_XV_SELECT_PORT_NOTIFY: u8 = 11;

/// Extension-relative opcode for the best-size query.
pub const XCB_XV_QUERY_BEST_SIZE: u8 = 12;

/// Extension-relative opcode for setting a port attribute.
pub const XCB_XV_SET_PORT_ATTRIBUTE: u8 = 13;

/// Extension-relative opcode for getting a port attribute.
pub const XCB_XV_GET_PORT_ATTRIBUTE: u8 = 14;

/// Extension-relative opcode for the port attribute query.
pub const XCB_XV_QUERY_PORT_ATTRIBUTES: u8 = 15;

/// Extension-relative opcode for the image format list.
pub const XCB_XV_LIST_IMAGE_FORMATS: u8 = 16;

/// Extension-relative opcode for the image attribute query.
pub const XCB_XV_QUERY_IMAGE_ATTRIBUTES: u8 = 17;

/// Extension-relative opcode for putting an image.
pub const XCB_XV_PUT_IMAGE: u8 = 18;

/// Extension-relative opcode for putting an image from shared memory.
pub const XCB_XV_SHM_PUT_IMAGE: u8 = 19;

/// A frame rate as an exact fraction: an 8-byte record of two signed words.
#[derive(Clone, Copy, PartialEq, Eq, Structural, Debug)]
pub struct Rational {
    pub numerator: i32,
    pub denominator: i32,
}

/// Size of a [`Rational`] record on the wire.
pub const RATIONAL_SIZE: usize = 8;

/// The rational stored at offset `off` of `s`.
pub open spec fn rational_at(s: Seq<u8>, off: int) -> Rational {
    Rational {
        numerator: u32_as_i32(u32_at(s, off)),
        denominator: u32_as_i32(u32_at(s, off + 4)),
    }
}

impl Rational {
    /// Reads the record stored at offset `off`.
    pub fn parse(b: &Vec<u8>, off: usize) -> (r: Rational)
        requires
            off + RATIONAL_SIZE <= b@.len(),
        ensures
            r == rational_at(b@, off as int),
    {
        let n = b.len();
        Rational {
            numerator: u32_to_i32(read_u32_le(b, off)),
            denominator: u32_to_i32(read_u32_le(b, off + 4)),
        }
    }

    pub fn numerator(&self) -> (r: i32)
        ensures
            r == self.numerator,
    {
        self.numerator
    }

    pub fn denominator(&self) -> (r: i32)
        ensures
            r == self.denominator,
    {
        self.denominator
    }
}

/// A visual paired with its depth: an 8-byte record.
#[derive(Clone, Copy, PartialEq, Eq, Structural, Debug)]
pub struct Format {
    pub visual: xproto::Visualid,
    pub depth: u8,
}

/// Size of a [`Format`] record on the wire.
pub const FORMAT_SIZE: usize = 8;

/// The format record stored at offset `off` of `s`.
pub open spec fn format_at(s: Seq<u8>, off: int) -> Format {
    Format { visual: u32_at(s, off), depth: s[off + 4] }
}

impl Format {
    /// Reads the record stored at offset `off`.
    pub fn parse(b: &Vec<u8>, off: usize) -> (r: Format)
        requires
            off + FORMAT_SIZE <= b@.len(),
        ensures
            r == format_at(b@, off as int),
    {
        let n = b.len();
        Format { visual: read_u32_le(b, off), depth: b[off + 4] }
    }

    pub fn visual(&self) -> (r: xproto::Visualid)
        ensures
            r == self.visual,
    {
        self.visual
    }

    pub fn depth(&self) -> (r: u8)
        ensures
            r == self.depth,
    {
        self.depth
    }
}

/// Forward-only iterator over packed port identifiers.
#[derive(Clone, Copy, PartialEq, Eq, Structural, Debug)]
pub struct PortIterator {
    pub cur: FixedCursor,
}

impl PortIterator {
    /// The cursor walks whole identifiers inside the buffer `s`.
    pub open spec fn wf_for(self, s: Seq<u8>) -> bool {
        &&& self.cur.wf()
        &&& self.cur.elem == 4
        &&& self.cur.limit <= s.len()
    }

    /// Yields the next identifier by value, or reports exhaustion.
    pub fn next(&mut self, b: &Vec<u8>) -> (r: Option<Port>)
        requires
            old(self).wf_for(b@),
        ensures
            final(self).wf_for(b@),
            match r {
                Some(p) => {
                    &&& old(self).cur.rem > 0
                    &&& final(self).cur == old(self).cur.advance()
                    &&& p == u32_at(b@, old(self).cur.off as int)
                },
                None => old(self).cur.rem == 0 && *final(self) == *old(self),
            },
    {
        match self.cur.next() {
            Some(start) => Some(read_u32_le(b, start)),
            None => None,
        }
    }
}

/// Forward-only iterator over packed encoding identifiers.
#[derive(Clone, Copy, PartialEq, Eq, Structural, Debug)]
pub struct EncodingIterator {
    pub cur: FixedCursor,
}

impl EncodingIterator {
    /// The cursor walks whole identifiers inside the buffer `s`.
    pub open spec fn wf_for(self, s: Seq<u8>) -> bool {
        &&& self.cur.wf()
        &&& self.cur.elem == 4
        &&& self.cur.limit <= s.len()
    }

    /// Yields the next identifier by value, or reports exhaustion.
    pub fn next(&mut self, b: &Vec<u8>) -> (r: Option<Encoding>)
        requires
            old(self).wf_for(b@),
        ensures
            final(self).wf_for(b@),
            match r {
                Some(p) => {
                    &&& old(self).cur.rem > 0
                    &&& final(self).cur == old(self).cur.advance()
                    &&& p == u32_at(b@, old(self).cur.off as int)
                },
                None => old(self).cur.rem == 0 && *final(self) == *old(self),
            },
    {
        match self.cur.next() {
            Some(start) => Some(read_u32_le(b, start)),
            None => None,
        }
    }
}

/// Forward-only iterator over packed rational records.
#[derive(Clone, Copy, PartialEq, Eq, Structural, Debug)]
pub struct RationalIterator {
    pub cur: FixedCursor,
}

impl RationalIterator {
    /// The cursor walks whole records inside the buffer `s`.
    pub open spec fn wf_for(self, s: Seq<u8>) -> bool {
        &&& self.cur.wf()
        &&& self.cur.elem == RATIONAL_SIZE
        &&& self.cur.limit <= s.len()
    }

    /// Yields the next record by value, or reports exhaustion.
    pub fn next(&mut self, b: &Vec<u8>) -> (r: Option<Rational>)
        requires
            old(self).wf_for(b@),
        ensures
            final(self).wf_for(b@),
            match r {
                Some(rec) => {
                    &&& old(self).cur.rem > 0
                    &&& final(self).cur == old(self).cur.advance()
                    &&& rec == rational_at(b@, old(self).cur.off as int)
                },
                None => old(self).cur.rem == 0 && *final(self) == *old(self),
            },
    {
        match self.cur.next() {
            Some(start) => Some(Rational::parse(b, start)),
            None => None,
        }
    }
}

/// Forward-only iterator over packed format records.
#[derive(Clone, Copy, PartialEq, Eq, Structural, Debug)]
pub struct FormatIterator {
    pub cur: FixedCursor,
}

impl FormatIterator {
    /// The cursor walks whole records inside the buffer `s`.
    pub open spec fn wf_for(self, s: Seq<u8>) -> bool {
        &&& self.cur.wf()
        &&& self.cur.elem == FORMAT_SIZE
        &&& self.cur.limit <= s.len()
    }

    /// Yields the next record by value, or reports exhaustion.
    pub fn next(&mut self, b: &Vec<u8>) -> (r: Option<Format>)
        requires
            old(self).wf_for(b@),
        ensures
            final(self).wf_for(b@),
            match r {
                Some(rec) => {
                    &&& old(self).cur.rem > 0
                    &&& final(self).cur == old(self).cur.advance()
                    &&& rec == format_at(b@, old(self).cur.off as int)
                },
                None => old(self).cur.rem == 0 && *final(self) == *old(self),
            },
    {
        match self.cur.next() {
            Some(start) => Some(Format::parse(b, start)),
            None => None,
        }
    }
}

/// Reads `count` packed format records starting at `off`.
fn read_format_list(b: &Vec<u8>, off: usize, count: usize) -> (r: Vec<Format>)
    requires
        off + FORMAT_SIZE * count <= b@.len(),
    ensures
        r@ == Seq::new(count as nat, |i: int| format_at(b@, off as int + FORMAT_SIZE * i)),
{
    let ln = b.len();
    let mut out: Vec<Format> = Vec::new();
    let mut k: usize = 0;
    while k < count
        invariant
            k <= count,
            ln == b@.len(),
            off + FORMAT_SIZE * count <= ln,
            out@ == Seq::new(k as nat, |i: int| format_at(b@, off as int + FORMAT_SIZE * i)),
        decreases count - k,
    {
        let f = Format::parse(b, off + FORMAT_SIZE * k);
        out.push(f);
        assert(out@ =~= Seq::new(
            (k + 1) as nat,
            |i: int| format_at(b@, off as int + FORMAT_SIZE * i),
        ));
        k = k + 1;
    }
    out
}

/// One video adaptor: fixed fields, a length-prefixed name padded to a
/// 4-byte boundary, then its packed format records.
#[derive(Debug)]
pub struct AdaptorInfo {
    pub base_id: Port,
    pub num_ports: u16,
    pub num_formats: u16,
    pub type_: u8,
    pub name: Vec<u8>,
    pub formats: Vec<Format>,
}

/// Mathematical image of an [`AdaptorInfo`].
#[verifier::ext_equal]
pub ghost struct AdaptorInfoView {
    pub base_id: Port,
    pub num_ports: u16,
    pub num_formats: u16,
    pub type_: u8,
    pub name: Seq<u8>,
    pub formats: Seq<Format>,
}

impl View for AdaptorInfo {
    type V = AdaptorInfoView;

    open spec fn view(&self) -> AdaptorInfoView {
        AdaptorInfoView {
            base_id: self.base_id,
            num_ports: self.num_ports,
            num_formats: self.num_formats,
            type_: self.type_,
            name: self.name@,
            formats: self.formats@,
        }
    }
}

/// Encoded size of the adaptor record at `off`: fixed fields, the padded
/// name, then its format records. Computing this size exactly is what keeps
/// the iterator's cursor synchronized.
pub open spec fn adaptor_size(s: Seq<u8>, off: int) -> int {
    12 + pad4(u16_at(s, off + 4) as int) + FORMAT_SIZE * (u16_at(s, off + 8) as int)
}

/// The adaptor record stored at offset `off` of `s`.
pub open spec fn adaptor_at(s: Seq<u8>, off: int) -> AdaptorInfoView {
    let ns = u16_at(s, off + 4) as int;
    let nf = u16_at(s, off + 8) as int;
    AdaptorInfoView {
        base_id: u32_at(s, off),
        num_ports: u16_at(s, off + 6),
        num_formats: u16_at(s, off + 8),
        type_: s[off + 10],
        name: s.subrange(off + 12, off + 12 + ns),
        formats: Seq::new(
            nf as nat,
            |i: int| format_at(s, off + 12 + pad4(ns) + FORMAT_SIZE * i),
        ),
    }
}

/// The `k` adaptor records packed from `off` on all lie inside the buffer.
pub open spec fn adaptor_list_wf(s: Seq<u8>, off: int, k: nat) -> bool
    decreases k,
{
    if k == 0 {
        true
    } else {
        &&& off >= 0
        &&& off + adaptor_size(s, off) <= s.len()
        &&& adaptor_list_wf(s, off + adaptor_size(s, off), (k - 1) as nat)
    }
}

impl AdaptorInfo {
    /// Reads the record stored at offset `off`, copying its name and format
    /// records out of the buffer.
    pub fn parse(b: &Vec<u8>, off: usize) -> (r: AdaptorInfo)
        requires
            off + adaptor_size(b@, off as int) <= b@.len(),
        ensures
            r@ == adaptor_at(b@, off as int),
    {
        let ln = b.len();
        proof {
            lemma_pad4_bounds(u16_at(b@, off as int + 4) as int);
        }
        let base_id = read_u32_le(b, off);
        let ns = read_u16_le(b, off + 4) as usize;
        let num_ports = read_u16_le(b, off + 6);
        let num_formats = read_u16_le(b, off + 8);
        let type_ = b[off + 10];
        let padded = pad4_len(ns);
        let name = copy_range(b, off + 12, ns);
        let formats = read_format_list(b, off + 12 + padded, num_formats as usize);
        let r = AdaptorInfo { base_id, num_ports, num_formats, type_, name, formats };
        proof {
            assert(r@ =~= adaptor_at(b@, off as int));
        }
        r
    }

    pub fn base_id(&self) -> (r: Port)
        ensures
            r == self.base_id,
    {
        self.base_id
    }

    pub fn num_ports(&self) -> (r: u16)
        ensures
            r == self.num_ports,
    {
        self.num_ports
    }

    pub fn type_(&self) -> (r: u8)
        ensures
            r == self.type_,
    {
        self.type_
    }

    pub fn name(&self) -> (r: &Vec<u8>)
        ensures
            r@ == self.name@,
    {
        &self.name
    }

    pub fn formats(&self) -> (r: &Vec<Format>)
        ensures
            r@ == self.formats@,
    {
        &self.formats
    }
}

/// Forward-only iterator over packed adaptor records, advancing by each
/// record's own encoded size.
#[derive(Clone, Copy, PartialEq, Eq, Structural, Debug)]
pub struct AdaptorInfoIterator {
    pub off: usize,
    pub rem: usize,
}

impl AdaptorInfoIterator {
    /// The remaining records all lie inside the buffer `s`.
    pub open spec fn wf_for(self, s: Seq<u8>) -> bool {
        adaptor_list_wf(s, self.off as int, self.rem as nat)
    }

    /// How many records remain.
    pub fn remaining(&self) -> (r: usize)
        ensures
            r == self.rem,
    {
        self.rem
    }

    /// Yields the next record by value and advances by its encoded size, or
    /// reports exhaustion.
    pub fn next(&mut self, b: &Vec<u8>) -> (r: Option<AdaptorInfo>)
        requires
            old(self).wf_for(b@),
        ensures
            final(self).wf_for(b@),
            match r {
                Some(a) => {
                    &&& old(self).rem > 0
                    &&& a@ == adaptor_at(b@, old(self).off as int)
                    &&& final(self).off == old(self).off + adaptor_size(b@, old(self).off as int)
                    &&& final(self).rem == old(self).rem - 1
                },
                None => old(self).rem == 0 && *final(self) == *old(self),
            },
    {
        if self.rem == 0 {
            return None;
        }
        let ln = b.len();
        proof {
            lemma_pad4_bounds(u16_at(b@, self.off as int + 4) as int);
        }
        let a = AdaptorInfo::parse(b, self.off);
        let ns = read_u16_le(b, self.off + 4) as usize;
        let nf = read_u16_le(b, self.off + 8) as usize;
        let padded = pad4_len(ns);
        self.off = self.off + 12 + padded + FORMAT_SIZE * nf;
        self.rem = self.rem - 1;
        Some(a)
    }
}

/// One encoding: fixed fields, a frame rate, then a length-prefixed name
/// padded to a 4-byte boundary.
#[derive(Debug)]
pub struct EncodingInfo {
    pub encoding: Encoding,
    pub width: u16,
    pub height: u16,
    pub rate: Rational,
    pub name: Vec<u8>,
}

/// Mathematical image of an [`EncodingInfo`].
#[verifier::ext_equal]
pub ghost struct EncodingInfoView {
    pub encoding: Encoding,
    pub width: u16,
    pub height: u16,
    pub rate: Rational,
    pub name: Seq<u8>,
}

impl View for EncodingInfo {
    type V = EncodingInfoView;

    open spec fn view(&self) -> EncodingInfoView {
        EncodingInfoView {
            encoding: self.encoding,
            width: self.width,
            height: self.height,
            rate: self.rate,
            name: self.name@,
        }
    }
}

/// Encoded size of the encoding record at `off`.
pub open spec fn encoding_size(s: Seq<u8>, off: int) -> int {
    20 + pad4(u16_at(s, off + 4) as int)
}

/// The encoding record stored at offset `off` of `s`.
pub open spec fn encoding_at(s: Seq<u8>, off: int) -> EncodingInfoView {
    let ns = u16_at(s, off + 4) as int;
    EncodingInfoView {
        encoding: u32_at(s, off),
        width: u16_at(s, off + 6),
        height: u16_at(s, off + 8),
        rate: rational_at(s, off + 12),
        name: s.subrange(off + 20, off + 20 + ns),
    }
}

/// The `k` encoding records packed from `off` on all lie inside the buffer.
pub open spec fn encoding_list_wf(s: Seq<u8>, off: int, k: nat) -> bool
    decreases k,
{
    if k == 0 {
        true
    } else {
        &&& off >= 0
        &&& off + encoding_size(s, off) <= s.len()
        &&& encoding_list_wf(s, off + encoding_size(s, off), (k - 1) as nat)
    }
}

impl EncodingInfo {
    /// Reads the record stored at offset `off`, copying its name out of the
    /// buffer.
    pub fn parse(b: &Vec<u8>, off: usize) -> (r: EncodingInfo)
        requires
            off + encoding_size(b@, off as int) <= b@.len(),
        ensures
            r@ == encoding_at(b@, off as int),
    {
        let ln = b.len();
        proof {
            lemma_pad4_bounds(u16_at(b@, off as int + 4) as int);
        }
        let encoding = read_u32_le(b, off);
        let ns = read_u16_le(b, off + 4) as usize;
        let width = read_u16_le(b, off + 6);
        let height = read_u16_le(b, off + 8);
        let rate = Rational::parse(b, off + 12);
        let name = copy_range(b, off + 20, ns);
        let r = EncodingInfo { encoding, width, height, rate, name };
        proof {
            assert(r@ =~= encoding_at(b@, off as int));
        }
        r
    }

    pub fn encoding(&self) -> (r: Encoding)
        ensures
            r == self.encoding,
    {
        self.encoding
    }

    pub fn width(&self) -> (r: u16)
        ensures
            r == self.width,
    {
        self.width
    }

    pub fn height(&self) -> (r: u16)
        ensures
            r == self.height,
    {
        self.height
    }

    pub fn rate(&self) -> (r: Rational)
        ensures
            r == self.rate,
    {
        self.rate
    }

    pub fn name(&self) -> (r: &Vec<u8>)
        ensures
            r@ == self.name@,
    {
        &self.name
    }
}

/// Forward-only iterator over packed encoding records, advancing by each
/// record's own encoded size.
#[derive(Clone, Copy, PartialEq, Eq, Structural, Debug)]
pub struct EncodingInfoIterator {
    pub off: usize,
    pub rem: usize,
}

impl EncodingInfoIterator {
    /// The remaining records all lie inside the buffer `s`.
    pub open spec fn wf_for(self, s: Seq<u8>) -> bool {
        encoding_list_wf(s, self.off as int, self.rem as nat)
    }

    /// How many records remain.
    pub fn remaining(&self) -> (r: usize)
        ensures
            r == self.rem,
    {
        self.rem
    }

    /// Yields the next record by value and advances by its encoded size, or
    /// reports exhaustion.
    pub fn next(&mut self, b: &Vec<u8>) -> (r: Option<EncodingInfo>)
        requires
            old(self).wf_for(b@),
        ensures
            final(self).wf_for(b@),
            match r {
                Some(a) => {
                    &&& old(self).rem > 0
                    &&& a@ == encoding_at(b@, old(self).off as int)
                    &&& final(self).off == old(self).off + encoding_size(b@, old(self).off as int)
                    &&& final(self).rem == old(self).rem - 1
                },
                None => old(self).rem == 0 && *final(self) == *old(self),
            },
    {
        if self.rem == 0 {
            return None;
        }
        let ln = b.len();
        proof {
            lemma_pad4_bounds(u16_at(b@, self.off as int + 4) as int);
        }
        let a = EncodingInfo::parse(b, self.off);
        let ns = read_u16_le(b, self.off + 4) as usize;
        let padded = pad4_len(ns);
        self.off = self.off + 20 + padded;
        self.rem = self.rem - 1;
        Some(a)
    }
}

/// One port attribute: flags, its legal range, then a length-prefixed name
/// padded to a 4-byte boundary.
#[derive(Debug)]
pub struct AttributeInfo {
    pub flags: u32,
    pub min: i32,
    pub max: i32,
    pub name: Vec<u8>,
}

/// Mathematical image of an [`AttributeInfo`].
#[verifier::ext_equal]
pub ghost struct AttributeInfoView {
    pub flags: u32,
    pub min: i32,
    pub max: i32,
    pub name: Seq<u8>,
}

impl View for AttributeInfo {
    type V = AttributeInfoView;

    open spec fn view(&self) -> AttributeInfoView {
        AttributeInfoView { flags: self.flags, min: self.min, max: self.max, name: self.name@ }
    }
}

/// Encoded size of the attribute record at `off`.
pub open spec fn attribute_size(s: Seq<u8>, off: int) -> int {
    16 + pad4(u32_at(s, off + 12) as int)
}

/// The attribute record stored at offset `off` of `s`.
pub open spec fn attribute_at(s: Seq<u8>, off: int) -> AttributeInfoView {
    let ns = u32_at(s, off + 12) as int;
    AttributeInfoView {
        flags: u32_at(s, off),
        min: u32_as_i32(u32_at(s, off + 4)),
        max: u32_as_i32(u32_at(s, off + 8)),
        name: s.subrange(off + 16, off + 16 + ns),
    }
}

/// The `k` attribute records packed from `off` on all lie inside the buffer.
pub open spec fn attribute_list_wf(s: Seq<u8>, off: int, k: nat) -> bool
    decreases k,
{
    if k == 0 {
        true
    } else {
        &&& off >= 0
        &&& off + attribute_size(s, off) <= s.len()
        &&& attribute_list_wf(s, off + attribute_size(s, off), (k - 1) as nat)
    }
}

impl AttributeInfo {
    /// Reads the record stored at offset `off`, copying its name out of the
    /// buffer.
    pub fn parse(b: &Vec<u8>, off: usize) -> (r: AttributeInfo)
        requires
            off + attribute_size(b@, off as int) <= b@.len(),
        ensures
            r@ == attribute_at(b@, off as int),
    {
        let ln = b.len();
        proof {
            lemma_pad4_bounds(u32_at(b@, off as int + 12) as int);
        }
        let flags = read_u32_le(b, off);
        let minv = u32_to_i32(read_u32_le(b, off + 4));
        let maxv = u32_to_i32(read_u32_le(b, off + 8));
        let ns = read_u32_le(b, off + 12) as usize;
        let name = copy_range(b, off + 16, ns);
        let r = AttributeInfo { flags, min: minv, max: maxv, name };
        proof {
            assert(r@ =~= attribute_at(b@, off as int));
        }
        r
    }

    pub fn flags(&self) -> (r: u32)
        ensures
            r == self.flags,
    {
        self.flags
    }

    pub fn min(&self) -> (r: i32)
        ensures
            r == self.min,
    {
        self.min
    }

    pub fn max(&self) -> (r: i32)
        ensures
            r == self.max,
    {
        self.max
    }

    pub fn name(&self) -> (r: &Vec<u8>)
        ensures
            r@ == self.name@,
    {
        &self.name
    }
}

/// Forward-only iterator over packed attribute records, advancing by each
/// record's own encoded size.
#[derive(Clone, Copy, PartialEq, Eq, Structural, Debug)]
pub struct AttributeInfoIterator {
    pub off: usize,
    pub rem: usize,
}

impl AttributeInfoIterator {
    /// The remaining records all lie inside the buffer `s`.
    pub open spec fn wf_for(self, s: Seq<u8>) -> bool {
        attribute_list_wf(s, self.off as int, self.rem as nat)
    }

    /// How many records remain.
    pub fn remaining(&self) -> (r: usize)
        ensures
            r == self.rem,
    {
        self.rem
    }

    /// Yields the next record by value and advances by its encoded size, or
    /// reports exhaustion.
    pub fn next(&mut self, b: &Vec<u8>) -> (r: Option<AttributeInfo>)
        requires
            old(self).wf_for(b@),
        ensures
            final(self).wf_for(b@),
            match r {
                Some(a) => {
                    &&& old(self).rem > 0
                    &&& a@ == attribute_at(b@, old(self).off as int)
                    &&& final(self).off == old(self).off + attribute_size(b@, old(self).off as int)
                    &&& final(self).rem == old(self).rem - 1
                },
                None => old(self).rem == 0 && *final(self) == *old(self),
            },
    {
        if self.rem == 0 {
            return None;
        }
        let ln = b.len();
        proof {
            lemma_pad4_bounds(u32_at(b@, self.off as int + 12) as int);
        }
        let a = AttributeInfo::parse(b, self.off);
        let ns = read_u32_le(b, self.off + 12) as usize;
        let padded = pad4_len(ns);
        self.off = self.off + 16 + padded;
        self.rem = self.rem - 1;
        Some(a)
    }
}

/// One image format: a fixed 128-byte record describing pixel layout and
/// sampling.
#[derive(Debug)]
pub struct ImageFormatInfo {
    pub id: u32,
    pub type_: u8,
    pub byte_order: u8,
    pub guid: Vec<u8>,
    pub bpp: u8,
    pub num_planes: u8,
    pub depth: u8,
    pub red_mask: u32,
    pub green_mask: u32,
    pub blue_mask: u32,
    pub format: u8,
    pub y_sample_bits: u32,
    pub u_sample_bits: u32,
    pub v_sample_bits: u32,
    pub vhorz_y_period: u32,
    pub vhorz_u_period: u32,
    pub vhorz_v_period: u32,
    pub vvert_y_period: u32,
    pub vvert_u_period: u32,
    pub vvert_v_period: u32,
    pub vcomp_order: Vec<u8>,
    pub vscanline_order: u8,
}

/// Mathematical image of an [`ImageFormatInfo`].
#[verifier::ext_equal]
pub ghost struct ImageFormatInfoView {
    pub id: u32,
    pub type_: u8,
    pub byte_order: u8,
    pub guid: Seq<u8>,
    pub bpp: u8,
    pub num_planes: u8,
    pub depth: u8,
    pub red_mask: u32,
    pub green_mask: u32,
    pub blue_mask: u32,
    pub format: u8,
    pub y_sample_bits: u32,
    pub u_sample_bits: u32,
    pub v_sample_bits: u32,
    pub vhorz_y_period: u32,
    pub vhorz_u_period: u32,
    pub vhorz_v_period: u32,
    pub vvert_y_period: u32,
    pub vvert_u_period: u32,
    pub vvert_v_period: u32,
    pub vcomp_order: Seq<u8>,
    pub vscanline_order: u8,
}

impl View for ImageFormatInfo {
    type V = ImageFormatInfoView;

    open spec fn view(&self) -> ImageFormatInfoView {
        ImageFormatInfoView {
            id: self.id,
            type_: self.type_,
            byte_order: self.byte_order,
            guid: self.guid@,
            bpp: self.bpp,
            num_planes: self.num_planes,
            depth: self.depth,
            red_mask: self.red_mask,
            green_mask: self.green_mask,
            blue_mask: self.blue_mask,
            format: self.format,
            y_sample_bits: self.y_sample_bits,
            u_sample_bits: self.u_sample_bits,
            v_sample_bits: self.v_sample_bits,
            vhorz_y_period: self.vhorz_y_period,
            vhorz_u_period: self.vhorz_u_period,
            vhorz_v_period: self.vhorz_v_period,
            vvert_y_period: self.vvert_y_period,
            vvert_u_period: self.vvert_u_period,
            vvert_v_period: self.vvert_v_period,
            vcomp_order: self.vcomp_order@,
            vscanline_order: self.vscanline_order,
        }
    }
}

/// Size of an [`ImageFormatInfo`] record on the wire.
pub const IMAGE_FORMAT_INFO_SIZE: usize = 128;

/// The image-format record stored at offset `off` of `s`.
pub open spec fn image_format_info_at(s: Seq<u8>, off: int) -> ImageFormatInfoView {
    ImageFormatInfoView {
        id: u32_at(s, off),
        type_: s[off + 4],
        byte_order: s[off + 5],
        guid: s.subrange(off + 8, off + 24),
        bpp: s[off + 24],
        num_planes: s[off + 25],
        depth: s[off + 28],
        red_mask: u32_at(s, off + 32),
        green_mask: u32_at(s, off + 36),
        blue_mask: u32_at(s, off + 40),
        format: s[off + 44],
        y_sample_bits: u32_at(s, off + 48),
        u_sample_bits: u32_at(s, off + 52),
        v_sample_bits: u32_at(s, off + 56),
        vhorz_y_period: u32_at(s, off + 60),
        vhorz_u_period: u32_at(s, off + 64),
        vhorz_v_period: u32_at(s, off + 68),
        vvert_y_period: u32_at(s, off + 72),
        vvert_u_period: u32_at(s, off + 76),
        vvert_v_period: u32_at(s, off + 80),
        vcomp_order: s.subrange(off + 84, off + 116),
        vscanline_order: s[off + 116],
    }
}

impl ImageFormatInfo {
    /// Reads the record stored at offset `off`.
    pub fn parse(b: &Vec<u8>, off: usize) -> (r: ImageFormatInfo)
        requires
            off + IMAGE_FORMAT_INFO_SIZE <= b@.len(),
        ensures
            r@ == image_format_info_at(b@, off as int),
    {
        let ln = b.len();
        let r = ImageFormatInfo {
            id: read_u32_le(b, off),
            type_: b[off + 4],
            byte_order: b[off + 5],
            guid: copy_range(b, off + 8, 16),
            bpp: b[off + 24],
            num_planes: b[off + 25],
            depth: b[off + 28],
            red_mask: read_u32_le(b, off + 32),
            green_mask: read_u32_le(b, off + 36),
            blue_mask: read_u32_le(b, off + 40),
            format: b[off + 44],
            y_sample_bits: read_u32_le(b, off + 48),
            u_sample_bits: read_u32_le(b, off + 52),
            v_sample_bits: read_u32_le(b, off + 56),
            vhorz_y_period: read_u32_le(b, off + 60),
            vhorz_u_period: read_u32_le(b, off + 64),
            vhorz_v_period: read_u32_le(b, off + 68),
            vvert_y_period: read_u32_le(b, off + 72),
            vvert_u_period: read_u32_le(b, off + 76),
            vvert_v_period: read_u32_le(b, off + 80),
            vcomp_order: copy_range(b, off + 84, 32),
            vscanline_order: b[off + 116],
        };
        proof {
            assert(r@ =~= image_format_info_at(b@, off as int));
        }
        r
    }

    pub fn id(&self) -> (r: u32)
        ensures
            r == self.id,
    {
        self.id
    }

    pub fn type_(&self) -> (r: u8)
        ensures
            r == self.type_,
    {
        self.type_
    }

    pub fn byte_order(&self) -> (r: u8)
        ensures
            r == self.byte_order,
    {
        self.byte_order
    }

    pub fn guid(&self) -> (r: &Vec<u8>)
        ensures
            r@ == self.guid@,
    {
        &self.guid
    }

    pub fn bpp(&self) -> (r: u8)
        ensures
            r == self.bpp,
    {
        self.bpp
    }

    pub fn num_planes(&self) -> (r: u8)
        ensures
            r == self.num_planes,
    {
        self.num_planes
    }

    pub fn depth(&self) -> (r: u8)
        ensures
            r == self.depth,
    {
        self.depth
    }

    pub fn red_mask(&self) -> (r: u32)
        ensures
            r == self.red_mask,
    {
        self.red_mask
    }

    pub fn green_mask(&self) -> (r: u32)
        ensures
            r == self.green_mask,
    {
        self.green_mask
    }

    pub fn blue_mask(&self) -> (r: u32)
        ensures
            r == self.blue_mask,
    {
        self.blue_mask
    }

    pub fn format(&self) -> (r: u8)
        ensures
            r == self.format,
    {
        self.format
    }

    pub fn y_sample_bits(&self) -> (r: u32)
        ensures
            r == self.y_sample_bits,
    {
        self.y_sample_bits
    }

    pub fn u_sample_bits(&self) -> (r: u32)
        ensures
            r == self.u_sample_bits,
    {
        self.u_sample_bits
    }

    pub fn v_sample_bits(&self) -> (r: u32)
        ensures
            r == self.v_sample_bits,
    {
        self.v_sample_bits
    }

    pub fn vhorz_y_period(&self) -> (r: u32)
        ensures
            r == self.vhorz_y_period,
    {
        self.vhorz_y_period
    }

    pub fn vhorz_u_period(&self) -> (r: u32)
        ensures
            r == self.vhorz_u_period,
    {
        self.vhorz_u_period
    }

    pub fn vhorz_v_period(&self) -> (r: u32)
        ensures
            r == self.vhorz_v_period,
    {
        self.vhorz_v_period
    }

    pub fn vvert_y_period(&self) -> (r: u32)
        ensures
            r == self.vvert_y_period,
    {
        self.vvert_y_period
    }

    pub fn vvert_u_period(&self) -> (r: u32)
        ensures
            r == self.vvert_u_period,
    {
        self.vvert_u_period
    }

    pub fn vvert_v_period(&self) -> (r: u32)
        ensures
            r == self.vvert_v_period,
    {
        self.vvert_v_period
    }

    pub fn vcomp_order(&self) -> (r: &Vec<u8>)
        ensures
            r@ == self.vcomp_order@,
    {
        &self.vcomp_order
    }

    pub fn vscanline_order(&self) -> (r: u8)
        ensures
            r == self.vscanline_order,
    {
        self.vscanline_order
    }
}

/// Forward-only iterator over packed image-format records.
#[derive(Clone, Copy, PartialEq, Eq, Structural, Debug)]
pub struct ImageFormatInfoIterator {
    pub cur: FixedCursor,
}

impl ImageFormatInfoIterator {
    /// The cursor walks whole records inside the buffer `s`.
    pub open spec fn wf_for(self, s: Seq<u8>) -> bool {
        &&& self.cur.wf()
        &&& self.cur.elem == IMAGE_FORMAT_INFO_SIZE
        &&& self.cur.limit <= s.len()
    }

    /// How many records remain.
    pub fn remaining(&self) -> (r: usize)
        ensures
            r == self.cur.rem,
    {
        self.cur.rem
    }

    /// Yields the next record by value, or reports exhaustion.
    pub fn next(&mut self, b: &Vec<u8>) -> (r: Option<ImageFormatInfo>)
        requires
            old(self).wf_for(b@),
        ensures
            final(self).wf_for(b@),
            match r {
                Some(rec) => {
                    &&& old(self).cur.rem > 0
                    &&& final(self).cur == old(self).cur.advance()
                    &&& rec@ == image_format_info_at(b@, old(self).cur.off as int)
                },
                None => old(self).cur.rem == 0 && *final(self) == *old(self),
            },
    {
        match self.cur.next() {
            Some(start) => Some(ImageFormatInfo::parse(b, start)),
            None => None,
        }
    }
}

/// One image: its identifier, geometry, and the per-plane pitches, offsets
/// and pixel data extracted by their length prefixes.
#[derive(Debug)]
pub struct Image {
    pub id: u32,
    pub width: u16,
    pub height: u16,
    pub pitches: Vec<u32>,
    pub offsets: Vec<u32>,
    pub data: Vec<u8>,
}

/// Mathematical image of an [`Image`].
#[verifier::ext_equal]
pub ghost struct ImageView {
    pub id: u32,
    pub width: u16,
    pub height: u16,
    pub pitches: Seq<u32>,
    pub offsets: Seq<u32>,
    pub data: Seq<u8>,
}

impl View for Image {
    type V = ImageView;

    open spec fn view(&self) -> ImageView {
        ImageView {
            id: self.id,
            width: self.width,
            height: self.height,
            pitches: self.pitches@,
            offsets: self.offsets@,
            data: self.data@,
        }
    }
}

/// Encoded size of the image record at `off`: fixed fields, one pitch and
/// one offset per plane, then the pixel data.
pub open spec fn image_size(s: Seq<u8>, off: int) -> int {
    16 + 8 * (u32_at(s, off + 12) as int) + (u32_at(s, off + 8) as int)
}

/// The image record stored at offset `off` of `s`.
pub open spec fn image_at(s: Seq<u8>, off: int) -> ImageView {
    let np = u32_at(s, off + 12) as int;
    let ds = u32_at(s, off + 8) as int;
    ImageView {
        id: u32_at(s, off),
        width: u16_at(s, off + 4),
        height: u16_at(s, off + 6),
        pitches: u32_list_at(s, off + 16, np),
        offsets: u32_list_at(s, off + 16 + 4 * np, np),
        data: s.subrange(off + 16 + 8 * np, off + 16 + 8 * np + ds),
    }
}

impl Image {
    /// Reads the record stored at offset `off`, copying its plane tables and
    /// pixel data out of the buffer.
    pub fn parse(b: &Vec<u8>, off: usize) -> (r: Image)
        requires
            off + image_size(b@, off as int) <= b@.len(),
        ensures
            r@ == image_at(b@, off as int),
    {
        let ln = b.len();
        let id = read_u32_le(b, off);
        let width = read_u16_le(b, off + 4);
        let height = read_u16_le(b, off + 6);
        let ds = read_u32_le(b, off + 8) as usize;
        let np = read_u32_le(b, off + 12) as usize;
        let pitches = read_u32_list(b, off + 16, np);
        let offsets = read_u32_list(b, off + 16 + 4 * np, np);
        let data = copy_range(b, off + 16 + 8 * np, ds);
        let r = Image { id, width, height, pitches, offsets, data };
        proof {
            assert(r@ =~= image_at(b@, off as int));
        }
        r
    }

    pub fn id(&self) -> (r: u32)
        ensures
            r == self.id,
    {
        self.id
    }

    pub fn width(&self) -> (r: u16)
        ensures
            r == self.width,
    {
        self.width
    }

    pub fn height(&self) -> (r: u16)
        ensures
            r == self.height,
    {
        self.height
    }

    pub fn pitches(&self) -> (r: &Vec<u32>)
        ensures
            r@ == self.pitches@,
    {
        &self.pitches
    }

    pub fn offsets(&self) -> (r: &Vec<u32>)
        ensures
            r@ == self.offsets@,
    {
        &self.offsets
    }

    pub fn data(&self) -> (r: &Vec<u8>)
        ensures
            r@ == self.data@,
    {
        &self.data
    }
}

/// The `k` image records packed from `off` on all lie inside the buffer.
pub open spec fn image_list_wf(s: Seq<u8>, off: int, k: nat) -> bool
    decreases k,
{
    if k == 0 {
        true
    } else {
        &&& off >= 0
        &&& off + image_size(s, off) <= s.len()
        &&& image_list_wf(s, off + image_size(s, off), (k - 1) as nat)
    }
}

/// Forward-only iterator over packed image records, advancing by each
/// record's own encoded size.
#[derive(Clone, Copy, PartialEq, Eq, Structural, Debug)]
pub struct ImageIterator {
    pub off: usize,
    pub rem: usize,
}

impl ImageIterator {
    /// The remaining records all lie inside the buffer `s`.
    pub open spec fn wf_for(self, s: Seq<u8>) -> bool {
        image_list_wf(s, self.off as int, self.rem as nat)
    }

    /// How many records remain.
    pub fn remaining(&self) -> (r: usize)
        ensures
            r == self.rem,
    {
        self.rem
    }

    /// Yields the next record by value and advances by its encoded size, or
    /// reports exhaustion.
    pub fn next(&mut self, b: &Vec<u8>) -> (r: Option<Image>)
        requires
            old(self).wf_for(b@),
        ensures
            final(self).wf_for(b@),
            match r {
                Some(a) => {
                    &&& old(self).rem > 0
                    &&& a@ == image_at(b@, old(self).off as int)
                    &&& final(self).off == old(self).off + image_size(b@, old(self).off as int)
                    &&& final(self).rem == old(self).rem - 1
                },
                None => old(self).rem == 0 && *final(self) == *old(self),
            },
    {
        if self.rem == 0 {
            return None;
        }
        let ln = b.len();
        let a = Image::parse(b, self.off);
        let ds = read_u32_le(b, self.off + 8) as usize;
        let np = read_u32_le(b, self.off + 12) as usize;
        self.off = self.off + 16 + 8 * np + ds;
        self.rem = self.rem - 1;
        Some(a)
    }
}

/// The cached mapping of this extension, or the failure owed when it is
/// unresolved or absent.
fn lookup(c: &Connection) -> (r: Result<ExtensionInfo, XError>)
    ensures
        match r {
            Ok(i) => c@.ext_info(extension_name()) == Some(i),
            Err(e) => e == XError::ExtensionNotPresent && c@.ext_info(extension_name()) is None,
        },
{
    let n = name();
    match c.extension_info(&n) {
        Some(i) => Ok(i),
        None => Err(XError::ExtensionNotPresent),
    }
}

/// Wire encoding of the extension version query.
pub open spec fn query_extension_bytes(major: u8) -> Seq<u8> {
    seq![major, XCB_XV_QUERY_EXTENSION] + u16_le(1)
}

/// Wire encoding of the adaptor query.
pub open spec fn query_adaptors_bytes(major: u8, window: u32) -> Seq<u8> {
    seq![major, XCB_XV_QUERY_ADAPTORS] + u16_le(2) + u32_le(window)
}

/// Wire encoding of the encoding query.
pub open spec fn query_encodings_bytes(major: u8, port: u32) -> Seq<u8> {
    seq![major, XCB_XV_QUERY_ENCODINGS] + u16_le(2) + u32_le(port)
}

/// Wire encoding of the port grab.
pub open spec fn grab_port_bytes(major: u8, port: u32, time: u32) -> Seq<u8> {
    seq![major, XCB_XV_GRAB_PORT] + u16_le(3) + u32_le(port) + u32_le(time)
}

/// Wire encoding of the port release.
pub open spec fn ungrab_port_bytes(major: u8, port: u32, time: u32) -> Seq<u8> {
    seq![major, XCB_XV_UNGRAB_PORT] + u16_le(3) + u32_le(port) + u32_le(time)
}

/// Wire encoding shared by the four video transfer requests, which differ
/// only in their extension-relative opcode.
pub open spec fn video_op_bytes(
    major: u8,
    minor: u8,
    port: u32,
    drawable: u32,
    gc: u32,
    vid_x: i16,
    vid_y: i16,
    vid_w: u16,
    vid_h: u16,
    drw_x: i16,
    drw_y: i16,
    drw_w: u16,
    drw_h: u16,
) -> Seq<u8> {
    seq![major, minor] + u16_le(8) + u32_le(port) + u32_le(drawable) + u32_le(gc) + u16_le(
        i16_as_u16(vid_x),
    ) + u16_le(i16_as_u16(vid_y)) + u16_le(vid_w) + u16_le(vid_h) + u16_le(i16_as_u16(drw_x))
        + u16_le(i16_as_u16(drw_y)) + u16_le(drw_w) + u16_le(drw_h)
}

/// Wire encoding of the video stop.
pub open spec fn stop_video_bytes(major: u8, port: u32, drawable: u32) -> Seq<u8> {
    seq![major, XCB_XV_STOP_VIDEO] + u16_le(3) + u32_le(port) + u32_le(drawable)
}

/// Wire encoding of the video-notify selection.
pub open spec fn select_video_notify_bytes(major: u8, drawable: u32, onoff: u8) -> Seq<u8> {
    seq![major, XCB_XV_SELECT_VIDEO_NOTIFY] + u16_le(3) + u32_le(drawable) + seq![
        onoff, 0u8, 0u8, 0u8,
    ]
}

/// Wire encoding of the port-notify selection.
pub open spec fn select_port_notify_bytes(major: u8, port: u32, onoff: u8) -> Seq<u8> {
    seq![major, XCB_XV_SELECT_PORT_NOTIFY] + u16_le(3) + u32_le(port) + seq![onoff, 0u8, 0u8, 0u8]
}

/// Wire encoding of the best-size query.
pub open spec fn query_best_size_bytes(
    major: u8,
    port: u32,
    vid_w: u16,
    vid_h: u16,
    drw_w: u16,
    drw_h: u16,
    motion: u8,
) -> Seq<u8> {
    seq![major, XCB_XV_QUERY_BEST_SIZE] + u16_le(5) + u32_le(port) + u16_le(vid_w) + u16_le(vid_h)
        + u16_le(drw_w) + u16_le(drw_h) + seq![motion, 0u8, 0u8, 0u8]
}

/// Wire encoding of the attribute setting.
pub open spec fn set_port_attribute_bytes(
    major: u8,
    port: u32,
    attribute: u32,
    value: i32,
) -> Seq<u8> {
    seq![major, XCB_XV_SET_PORT_ATTRIBUTE] + u16_le(4) + u32_le(port) + u32_le(attribute) + u32_le(
        i32_as_u32(value),
    )
}

/// Wire encoding of the attribute query.
pub open spec fn get_port_attribute_bytes(major: u8, port: u32, attribute: u32) -> Seq<u8> {
    seq![major, XCB_XV_GET_PORT_ATTRIBUTE] + u16_le(3) + u32_le(port) + u32_le(attribute)
}

/// Wire encoding of the port attribute listing.
pub open spec fn query_port_attributes_bytes(major: u8, port: u32) -> Seq<u8> {
    seq![major, XCB_XV_QUERY_PORT_ATTRIBUTES] + u16_le(2) + u32_le(port)
}

/// Wire encoding of the image format listing.
pub open spec fn list_image_formats_bytes(major: u8, port: u32) -> Seq<u8> {
    seq![major, XCB_XV_LIST_IMAGE_FORMATS] + u16_le(2) + u32_le(port)
}

/// Wire encoding of the image attribute query.
pub open spec fn query_image_attributes_bytes(
    major: u8,
    port: u32,
    id: u32,
    width: u16,
    height: u16,
) -> Seq<u8> {
    seq![major, XCB_XV_QUERY_IMAGE_ATTRIBUTES] + u16_le(4) + u32_le(port) + u32_le(id) + u16_le(
        width,
    ) + u16_le(height)
}

/// Wire encoding of the image transfer: fixed fields then the pixel data
/// padded with zeros to a 4-byte boundary.
pub open spec fn put_image_bytes(
    major: u8,
    port: u32,
    drawable: u32,
    gc: u32,
    id: u32,
    src_x: i16,
    src_y: i16,
    src_w: u16,
    src_h: u16,
    drw_x: i16,
    drw_y: i16,
    drw_w: u16,
    drw_h: u16,
    width: u16,
    height: u16,
    data: Seq<u8>,
) -> Seq<u8> {
    seq![major, XCB_XV_PUT_IMAGE] + u16_le(((40 + pad4(data.len() as int)) / 4) as u16) + u32_le(
        port,
    ) + u32_le(drawable) + u32_le(gc) + u32_le(id) + u16_le(i16_as_u16(src_x)) + u16_le(
        i16_as_u16(src_y),
    ) + u16_le(src_w) + u16_le(src_h) + u16_le(i16_as_u16(drw_x)) + u16_le(i16_as_u16(drw_y))
        + u16_le(drw_w) + u16_le(drw_h) + u16_le(width) + u16_le(height) + data + Seq::new(
        (pad4(data.len() as int) - data.len()) as nat,
        |i: int| 0u8,
    )
}

/// Wire encoding of the shared-memory image transfer.
pub open spec fn shm_put_image_bytes(
    major: u8,
    port: u32,
    drawable: u32,
    gc: u32,
    shmseg: u32,
    id: u32,
    offset: u32,
    src_x: i16,
    src_y: i16,
    src_w: u16,
    src_h: u16,
    drw_x: i16,
    drw_y: i16,
    drw_w: u16,
    drw_h: u16,
    width: u16,
    height: u16,
    send_event: u8,
) -> Seq<u8> {
    seq![major, XCB_XV_SHM_PUT_IMAGE] + u16_le(13) + u32_le(port) + u32_le(drawable) + u32_le(gc)
        + u32_le(shmseg) + u32_le(id) + u32_le(offset) + u16_le(i16_as_u16(src_x)) + u16_le(
        i16_as_u16(src_y),
    ) + u16_le(src_w) + u16_le(src_h) + u16_le(i16_as_u16(drw_x)) + u16_le(i16_as_u16(drw_y))
        + u16_le(drw_w) + u16_le(drw_h) + u16_le(width) + u16_le(height) + seq![
        send_event, 0u8, 0u8, 0u8,
    ]
}

/// Correlation handle of an extension version query.
#[derive(Clone, Copy, PartialEq, Eq, Structural, Debug)]
pub struct QueryExtensionCookie {
    pub base: Cookie,
}

/// Correlation handle of an adaptor query.
#[derive(Clone, Copy, PartialEq, Eq, Structural, Debug)]
pub struct QueryAdaptorsCookie {
    pub base: Cookie,
}

/// Correlation handle of an encoding query.
#[derive(Clone, Copy, PartialEq, Eq, Structural, Debug)]
pub struct QueryEncodingsCookie {
    pub base: Cookie,
}

/// Correlation handle of a port grab.
#[derive(Clone, Copy, PartialEq, Eq, Structural, Debug)]
pub struct GrabPortCookie {
    pub base: Cookie,
}

/// Correlation handle of a best-size query.
#[derive(Clone, Copy, PartialEq, Eq, Structural, Debug)]
pub struct QueryBestSizeCookie {
    pub base: Cookie,
}

/// Correlation handle of an attribute query.
#[derive(Clone, Copy, PartialEq, Eq, Structural, Debug)]
pub struct GetPortAttributeCookie {
    pub base: Cookie,
}

/// Correlation handle of a port attribute listing.
#[derive(Clone, Copy, PartialEq, Eq, Structural, Debug)]
pub struct QueryPortAttributesCookie {
    pub base: Cookie,
}

/// Correlation handle of an image format listing.
#[derive(Clone, Copy, PartialEq, Eq, Structural, Debug)]
pub struct ListImageFormatsCookie {
    pub base: Cookie,
}

/// Correlation handle of an image attribute query.
#[derive(Clone, Copy, PartialEq, Eq, Structural, Debug)]
pub struct QueryImageAttributesCookie {
    pub base: Cookie,
}

/// Builds and transmits the extension version query.
fn submit_query_extension(c: &mut Connection, checked: bool) -> (r: Result<Cookie, XError>)
    requires
        old(c).wf(),
        old(c)@.next_seq < u64::MAX,
    ensures
        final(c).wf(),
        old(c)@.ext_request_outcome(
            final(c)@,
            r,
            extension_name(),
            PendingKind::Reply { checked },
            query_extension_bytes(old(c)@.ext_major(extension_name())),
        ),
{
    let info = match lookup(c) {
        Ok(i) => i,
        Err(e) => {
            return Err(e);
        },
    };
    let mut out: Vec<u8> = Vec::new();
    out.push(info.major_opcode);
    out.push(XCB_XV_QUERY_EXTENSION);
    push_u16_le(&mut out, 1);
    proof {
        assert(out@ =~= query_extension_bytes(info.major_opcode));
    }
    c.issue_request(PendingKind::Reply { checked }, out)
}

/// Issues a checked extension version query.
pub fn QueryExtension(c: &mut Connection) -> (r: Result<QueryExtensionCookie, XError>)
    requires
        old(c).wf(),
        old(c)@.next_seq < u64::MAX,
    ensures
        final(c).wf(),
        old(c)@.ext_request_outcome(
            final(c)@,
            match r {
                Ok(ck) => Ok(ck.base),
                Err(e) => Err(e),
            },
            extension_name(),
            PendingKind::Reply { checked: true },
            query_extension_bytes(old(c)@.ext_major(extension_name())),
        ),
{
    match submit_query_extension(c, true) {
        Ok(ck) => Ok(QueryExtensionCookie { base: ck }),
        Err(e) => Err(e),
    }
}

/// Issues an unchecked extension version query.
pub fn QueryExtensionUnchecked(c: &mut Connection) -> (r: Result<QueryExtensionCookie, XError>)
    requires
        old(c).wf(),
        old(c)@.next_seq < u64::MAX,
    ensures
        final(c).wf(),
        old(c)@.ext_request_outcome(
            final(c)@,
            match r {
                Ok(ck) => Ok(ck.base),
                Err(e) => Err(e),
            },
            extension_name(),
            PendingKind::Reply { checked: false },
            query_extension_bytes(old(c)@.ext_major(extension_name())),
        ),
{
    match submit_query_extension(c, false) {
        Ok(ck) => Ok(QueryExtensionCookie { base: ck }),
        Err(e) => Err(e),
    }
}

/// Builds and transmits the adaptor query.
fn submit_query_adaptors(c: &mut Connection, checked: bool, window: xproto::Window) -> (r: Result<
    Cookie,
    XError,
>)
    requires
        old(c).wf(),
        old(c)@.next_seq < u64::MAX,
    ensures
        final(c).wf(),
        old(c)@.ext_request_outcome(
            final(c)@,
            r,
            extension_name(),
            PendingKind::Reply { checked },
            query_adaptors_bytes(old(c)@.ext_major(extension_name()), window),
        ),
{
    let info = match lookup(c) {
        Ok(i) => i,
        Err(e) => {
            return Err(e);
        },
    };
    let mut out: Vec<u8> = Vec::new();
    out.push(info.major_opcode);
    out.push(XCB_XV_QUERY_ADAPTORS);
    push_u16_le(&mut out, 2);
    push_u32_le(&mut out, window);
    proof {
        assert(out@ =~= query_adaptors_bytes(info.major_opcode, window));
    }
    c.issue_request(PendingKind::Reply { checked }, out)
}

/// Issues a checked adaptor query.
pub fn QueryAdaptors(c: &mut Connection, window: xproto::Window) -> (r: Result<
    QueryAdaptorsCookie,
    XError,
>)
    requires
        old(c).wf(),
        old(c)@.next_seq < u64::MAX,
    ensures
        final(c).wf(),
        old(c)@.ext_request_outcome(
            final(c)@,
            match r {
                Ok(ck) => Ok(ck.base),
                Err(e) => Err(e),
            },
            extension_name(),
            PendingKind::Reply { checked: true },
            query_adaptors_bytes(old(c)@.ext_major(extension_name()), window),
        ),
{
    match submit_query_adaptors(c, true, window) {
        Ok(ck) => Ok(QueryAdaptorsCookie { base: ck }),
        Err(e) => Err(e),
    }
}

/// Issues an unchecked adaptor query.
pub fn QueryAdaptorsUnchecked(c: &mut Connection, window: xproto::Window) -> (r: Result<
    QueryAdaptorsCookie,
    XError,
>)
    requires
        old(c).wf(),
        old(c)@.next_seq < u64::MAX,
    ensures
        final(c).wf(),
        old(c)@.ext_request_outcome(
            final(c)@,
            match r {
                Ok(ck) => Ok(ck.base),
                Err(e) => Err(e),
            },
            extension_name(),
            PendingKind::Reply { checked: false },
            query_adaptors_bytes(old(c)@.ext_major(extension_name()), window),
        ),
{
    match submit_query_adaptors(c, false, window) {
        Ok(ck) => Ok(QueryAdaptorsCookie { base: ck }),
        Err(e) => Err(e),
    }
}

/// Builds and transmits the encoding query.
fn submit_query_encodings(c: &mut Connection, checked: bool, port: Port) -> (r: Result<
    Cookie,
    XError,
>)
    requires
        old(c).wf(),
        old(c)@.next_seq < u64::MAX,
    ensures
        final(c).wf(),
        old(c)@.ext_request_outcome(
            final(c)@,
            r,
            extension_name(),
            PendingKind::Reply { checked },
            query_encodings_bytes(old(c)@.ext_major(extension_name()), port),
        ),
{
    let info = match lookup(c) {
        Ok(i) => i,
        Err(e) => {
            return Err(e);
        },
    };
    let mut out: Vec<u8> = Vec::new();
    out.push(info.major_opcode);
    out.push(XCB_XV_QUERY_ENCODINGS);
    push_u16_le(&mut out, 2);
    push_u32_le(&mut out, port);
    proof {
        assert(out@ =~= query_encodings_bytes(info.major_opcode, port));
    }
    c.issue_request(PendingKind::Reply { checked }, out)
}

/// Issues a checked encoding query.
pub fn QueryEncodings(c: &mut Connection, port: Port) -> (r: Result<QueryEncodingsCookie, XError>)
    requires
        old(c).wf(),
        old(c)@.next_seq < u64::MAX,
    ensures
        final(c).wf(),
        old(c)@.ext_request_outcome(
            final(c)@,
            match r {
                Ok(ck) => Ok(ck.base),
                Err(e) => Err(e),
            },
            extension_name(),
            PendingKind::Reply { checked: true },
            query_encodings_bytes(old(c)@.ext_major(extension_name()), port),
        ),
{
    match submit_query_encodings(c, true, port) {
        Ok(ck) => Ok(QueryEncodingsCookie { base: ck }),
        Err(e) => Err(e),
    }
}

/// Issues an unchecked encoding query.
pub fn QueryEncodingsUnchecked(c: &mut Connection, port: Port) -> (r: Result<
    QueryEncodingsCookie,
    XError,
>)
    requires
        old(c).wf(),
        old(c)@.next_seq < u64::MAX,
    ensures
        final(c).wf(),
        old(c)@.ext_request_outcome(
            final(c)@,
            match r {
                Ok(ck) => Ok(ck.base),
                Err(e) => Err(e),
            },
            extension_name(),
            PendingKind::Reply { checked: false },
            query_encodings_bytes(old(c)@.ext_major(extension_name()), port),
        ),
{
    match submit_query_encodings(c, false, port) {
        Ok(ck) => Ok(QueryEncodingsCookie { base: ck }),
        Err(e) => Err(e),
    }
}

/// Builds and transmits the port grab.
fn submit_grab_port(c: &mut Connection, checked: bool, port: Port, time: xproto::Timestamp) -> (r:
    Result<Cookie, XError>)
    requires
        old(c).wf(),
        old(c)@.next_seq < u64::MAX,
    ensures
        final(c).wf(),
        old(c)@.ext_request_outcome(
            final(c)@,
            r,
            extension_name(),
            PendingKind::Reply { checked },
            grab_port_bytes(old(c)@.ext_major(extension_name()), port, time),
        ),
{
    let info = match lookup(c) {
        Ok(i) => i,
        Err(e) => {
            return Err(e);
        },
    };
    let mut out: Vec<u8> = Vec::new();
    out.push(info.major_opcode);
    out.push(XCB_XV_GRAB_PORT);
    push_u16_le(&mut out, 3);
    push_u32_le(&mut out, port);
    push_u32_le(&mut out, time);
    proof {
        assert(out@ =~= grab_port_bytes(info.major_opcode, port, time));
    }
    c.issue_request(PendingKind::Reply { checked }, out)
}

/// Issues a checked port grab.
pub fn GrabPort(c: &mut Connection, port: Port, time: xproto::Timestamp) -> (r: Result<
    GrabPortCookie,
    XError,
>)
    requires
        old(c).wf(),
        old(c)@.next_seq < u64::MAX,
    ensures
        final(c).wf(),
        old(c)@.ext_request_outcome(
            final(c)@,
            match r {
                Ok(ck) => Ok(ck.base),
                Err(e) => Err(e),
            },
            extension_name(),
            PendingKind::Reply { checked: true },
            grab_port_bytes(old(c)@.ext_major(extension_name()), port, time),
        ),
{
    match submit_grab_port(c, true, port, time) {
        Ok(ck) => Ok(GrabPortCookie { base: ck }),
        Err(e) => Err(e),
    }
}

/// Issues an unchecked port grab.
pub fn GrabPortUnchecked(c: &mut Connection, port: Port, time: xproto::Timestamp) -> (r: Result<
    GrabPortCookie,
    XError,
>)
    requires
        old(c).wf(),
        old(c)@.next_seq < u64::MAX,
    ensures
        final(c).wf(),
        old(c)@.ext_request_outcome(
            final(c)@,
            match r {
                Ok(ck) => Ok(ck.base),
                Err(e) => Err(e),
            },
            extension_name(),
            PendingKind::Reply { checked: false },
            grab_port_bytes(old(c)@.ext_major(extension_name()), port, time),
        ),
{
    match submit_grab_port(c, false, port, time) {
        Ok(ck) => Ok(GrabPortCookie { base: ck }),
        Err(e) => Err(e),
    }
}

/// Builds and transmits the port release.
fn submit_ungrab_port(
    c: &mut Connection,
    kind: PendingKind,
    port: Port,
    time: xproto::Timestamp,
) -> (r: Result<Cookie, XError>)
    requires
        old(c).wf(),
        old(c)@.next_seq < u64::MAX,
    ensures
        final(c).wf(),
        old(c)@.ext_request_outcome(
            final(c)@,
            r,
            extension_name(),
            kind,
            ungrab_port_bytes(old(c)@.ext_major(extension_name()), port, time),
        ),
{
    let info = match lookup(c) {
        Ok(i) => i,
        Err(e) => {
            return Err(e);
        },
    };
    let mut out: Vec<u8> = Vec::new();
    out.push(info.major_opcode);
    out.push(XCB_XV_UNGRAB_PORT);
    push_u16_le(&mut out, 3);
    push_u32_le(&mut out, port);
    push_u32_le(&mut out, time);
    proof {
        assert(out@ =~= ungrab_port_bytes(info.major_opcode, port, time));
    }
    c.issue_request(kind, out)
}

/// Releases a grabbed port; checked.
pub fn UngrabPortChecked(c: &mut Connection, port: Port, time: xproto::Timestamp) -> (r: Result<
    VoidCookie,
    XError,
>)
    requires
        old(c).wf(),
        old(c)@.next_seq < u64::MAX,
    ensures
        final(c).wf(),
        old(c)@.ext_request_outcome(
            final(c)@,
            match r {
                Ok(ck) => Ok(ck.base),
                Err(e) => Err(e),
            },
            extension_name(),
            PendingKind::VoidChecked,
            ungrab_port_bytes(old(c)@.ext_major(extension_name()), port, time),
        ),
{
    match submit_ungrab_port(c, PendingKind::VoidChecked, port, time) {
        Ok(ck) => Ok(VoidCookie { base: ck }),
        Err(e) => Err(e),
    }
}

/// Releases a grabbed port; unchecked.
pub fn UngrabPort(c: &mut Connection, port: Port, time: xproto::Timestamp) -> (r: Result<
    VoidCookie,
    XError,
>)
    requires
        old(c).wf(),
        old(c)@.next_seq < u64::MAX,
    ensures
        final(c).wf(),
        old(c)@.ext_request_outcome(
            final(c)@,
            match r {
                Ok(ck) => Ok(ck.base),
                Err(e) => Err(e),
            },
            extension_name(),
            PendingKind::VoidUnchecked,
            ungrab_port_bytes(old(c)@.ext_major(extension_name()), port, time),
        ),
{
    match submit_ungrab_port(c, PendingKind::VoidUnchecked, port, time) {
        Ok(ck) => Ok(VoidCookie { base: ck }),
        Err(e) => Err(e),
    }
}

/// Builds and transmits one of the four video transfer requests.
fn submit_video_op(
    c: &mut Connection,
    kind: PendingKind,
    minor: u8,
    port: Port,
    drawable: xproto::Drawable,
    gc: xproto::Gcontext,
    vid_x: i16,
    vid_y: i16,
    vid_w: u16,
    vid_h: u16,
    drw_x: i16,
    drw_y: i16,
    drw_w: u16,
    drw_h: u16,
) -> (r: Result<Cookie, XError>)
    requires
        old(c).wf(),
        old(c)@.next_seq < u64::MAX,
    ensures
        final(c).wf(),
        old(c)@.ext_request_outcome(
            final(c)@,
            r,
            extension_name(),
            kind,
            video_op_bytes(
                old(c)@.ext_major(extension_name()),
                minor,
                port,
                drawable,
                gc,
                vid_x,
                vid_y,
                vid_w,
                vid_h,
                drw_x,
                drw_y,
                drw_w,
                drw_h,
            ),
        ),
{
    let info = match lookup(c) {
        Ok(i) => i,
        Err(e) => {
            return Err(e);
        },
    };
    let mut out: Vec<u8> = Vec::new();
    out.push(info.major_opcode);
    out.push(minor);
    push_u16_le(&mut out, 8);
    push_u32_le(&mut out, port);
    push_u32_le(&mut out, drawable);
    push_u32_le(&mut out, gc);
    push_u16_le(&mut out, i16_to_u16(vid_x));
    push_u16_le(&mut out, i16_to_u16(vid_y));
    push_u16_le(&mut out, vid_w);
    push_u16_le(&mut out, vid_h);
    push_u16_le(&mut out, i16_to_u16(drw_x));
    push_u16_le(&mut out, i16_to_u16(drw_y));
    push_u16_le(&mut out, drw_w);
    push_u16_le(&mut out, drw_h);
    proof {
        assert(out@ =~= video_op_bytes(
            info.major_opcode,
            minor,
            port,
            drawable,
            gc,
            vid_x,
            vid_y,
            vid_w,
            vid_h,
            drw_x,
            drw_y,
            drw_w,
            drw_h,
        ));
    }
    c.issue_request(kind, out)
}

/// Starts video into a drawable; checked.
pub fn PutVideoChecked(
    c: &mut Connection,
    port: Port,
    drawable: xproto::Drawable,
    gc: xproto::Gcontext,
    vid_x: i16,
    vid_y: i16,
    vid_w: u16,
    vid_h: u16,
    drw_x: i16,
    drw_y: i16,
    drw_w: u16,
    drw_h: u16,
) -> (r: Result<VoidCookie, XError>)
    requires
        old(c).wf(),
        old(c)@.next_seq < u64::MAX,
    ensures
        final(c).wf(),
        old(c)@.ext_request_outcome(
            final(c)@,
            match r {
                Ok(ck) => Ok(ck.base),
                Err(e) => Err(e),
            },
            extension_name(),
            PendingKind::VoidChecked,
            video_op_bytes(
                old(c)@.ext_major(extension_name()),
                XCB_XV_PUT_VIDEO,
                port,
                drawable,
                gc,
                vid_x,
                vid_y,
                vid_w,
                vid_h,
                drw_x,
                drw_y,
                drw_w,
                drw_h,
            ),
        ),
{
    match submit_video_op(
        c,
        PendingKind::VoidChecked,
        XCB_XV_PUT_VIDEO,
        port,
        drawable,
        gc,
        vid_x,
        vid_y,
        vid_w,
        vid_h,
        drw_x,
        drw_y,
        drw_w,
        drw_h,
    ) {
        Ok(ck) => Ok(VoidCookie { base: ck }),
        Err(e) => Err(e),
    }
}

/// Starts video into a drawable; unchecked.
pub fn PutVideo(
    c: &mut Connection,
    port: Port,
    drawable: xproto::Drawable,
    gc: xproto::Gcontext,
    vid_x: i16,
    vid_y: i16,
    vid_w: u16,
    vid_h: u16,
    drw_x: i16,
    drw_y: i16,
    drw_w: u16,
    drw_h: u16,
) -> (r: Result<VoidCookie, XError>)
    requires
        old(c).wf(),
        old(c)@.next_seq < u64::MAX,
    ensures
        final(c).wf(),
        old(c)@.ext_request_outcome(
            final(c)@,
            match r {
                Ok(ck) => Ok(ck.base),
                Err(e) => Err(e),
            },
            extension_name(),
            PendingKind::VoidUnchecked,
            video_op_bytes(
                old(c)@.ext_major(extension_name()),
                XCB_XV_PUT_VIDEO,
                port,
                drawable,
                gc,
                vid_x,
                vid_y,
                vid_w,
                vid_h,
                drw_x,
                drw_y,
                drw_w,
                drw_h,
            ),
        ),
{
    match submit_video_op(
        c,
        PendingKind::VoidUnchecked,
        XCB_XV_PUT_VIDEO,
        port,
        drawable,
        gc,
        vid_x,
        vid_y,
        vid_w,
        vid_h,
        drw_x,
        drw_y,
        drw_w,
        drw_h,
    ) {
        Ok(ck) => Ok(VoidCookie { base: ck }),
        Err(e) => Err(e),
    }
}

/// Displays a single frame; checked.
pub fn PutStillChecked(
    c: &mut Connection,
    port: Port,
    drawable: xproto::Drawable,
    gc: xproto::Gcontext,
    vid_x: i16,
    vid_y: i16,
    vid_w: u16,
    vid_h: u16,
    drw_x: i16,
    drw_y: i16,
    drw_w: u16,
    drw_h: u16,
) -> (r: Result<VoidCookie, XError>)
    requires
        old(c).wf(),
        old(c)@.next_seq < u64::MAX,
    ensures
        final(c).wf(),
        old(c)@.ext_request_outcome(
            final(c)@,
            match r {
                Ok(ck) => Ok(ck.base),
                Err(e) => Err(e),
            },
            extension_name(),
            PendingKind::VoidChecked,
            video_op_bytes(
                old(c)@.ext_major(extension_name()),
                XCB_XV_PUT_STILL,
                port,
                drawable,
                gc,
                vid_x,
                vid_y,
                vid_w,
                vid_h,
                drw_x,
                drw_y,
                drw_w,
                drw_h,
            ),
        ),
{
    match submit_video_op(
        c,
        PendingKind::VoidChecked,
        XCB_XV_PUT_STILL,
        port,
        drawable,
        gc,
        vid_x,
        vid_y,
        vid_w,
        vid_h,
        drw_x,
        drw_y,
        drw_w,
        drw_h,
    ) {
        Ok(ck) => Ok(VoidCookie { base: ck }),
        Err(e) => Err(e),
    }
}

/// Displays a single frame; unchecked.
pub fn PutStill(
    c: &mut Connection,
    port: Port,
    drawable: xproto::Drawable,
    gc: xproto::Gcontext,
    vid_x: i16,
    vid_y: i16,
    vid_w: u16,
    vid_h: u16,
    drw_x: i16,
    drw_y: i16,
    drw_w: u16,
    drw_h: u16,
) -> (r: Result<VoidCookie, XError>)
    requires
        old(c).wf(),
        old(c)@.next_seq < u64::MAX,
    ensures
        final(c).wf(),
        old(c)@.ext_request_outcome(
            final(c)@,
            match r {
                Ok(ck) => Ok(ck.base),
                Err(e) => Err(e),
            },
            extension_name(),
            PendingKind::VoidUnchecked,
            video_op_bytes(
                old(c)@.ext_major(extension_name()),
                XCB_XV_PUT_STILL,
                port,
                drawable,
                gc,
                vid_x,
                vid_y,
                vid_w,
                vid_h,
                drw_x,
                drw_y,
                drw_w,
                drw_h,
            ),
        ),
{
    match submit_video_op(
        c,
        PendingKind::VoidUnchecked,
        XCB_XV_PUT_STILL,
        port,
        drawable,
        gc,
        vid_x,
        vid_y,
        vid_w,
        vid_h,
        drw_x,
        drw_y,
        drw_w,
        drw_h,
    ) {
        Ok(ck) => Ok(VoidCookie { base: ck }),
        Err(e) => Err(e),
    }
}

/// Captures video from a drawable; checked.
pub fn GetVideoChecked(
    c: &mut Connection,
    port: Port,
    drawable: xproto::Drawable,
    gc: xproto::Gcontext,
    vid_x: i16,
    vid_y: i16,
    vid_w: u16,
    vid_h: u16,
    drw_x: i16,
    drw_y: i16,
    drw_w: u16,
    drw_h: u16,
) -> (r: Result<VoidCookie, XError>)
    requires
        old(c).wf(),
        old(c)@.next_seq < u64::MAX,
    ensures
        final(c).wf(),
        old(c)@.ext_request_outcome(
            final(c)@,
            match r {
                Ok(ck) => Ok(ck.base),
                Err(e) => Err(e),
            },
            extension_name(),
            PendingKind::VoidChecked,
            video_op_bytes(
                old(c)@.ext_major(extension_name()),
                XCB_XV_GET_VIDEO,
                port,
                drawable,
                gc,
                vid_x,
                vid_y,
                vid_w,
                vid_h,
                drw_x,
                drw_y,
                drw_w,
                drw_h,
            ),
        ),
{
    match submit_video_op(
        c,
        PendingKind::VoidChecked,
        XCB_XV_GET_VIDEO,
        port,
        drawable,
        gc,
        vid_x,
        vid_y,
        vid_w,
        vid_h,
        drw_x,
        drw_y,
        drw_w,
        drw_h,
    ) {
        Ok(ck) => Ok(VoidCookie { base: ck }),
        Err(e) => Err(e),
    }
}

/// Captures video from a drawable; unchecked.
pub fn GetVideo(
    c: &mut Connection,
    port: Port,
    drawable: xproto::Drawable,
    gc: xproto::Gcontext,
    vid_x: i16,
    vid_y: i16,
    vid_w: u16,
    vid_h: u16,
    drw_x: i16,
    drw_y: i16,
    drw_w: u16,
    drw_h: u16,
) -> (r: Result<VoidCookie, XError>)
    requires
        old(c).wf(),
        old(c)@.next_seq < u64::MAX,
    ensures
        final(c).wf(),
        old(c)@.ext_request_outcome(
            final(c)@,
            match r {
                Ok(ck) => Ok(ck.base),
                Err(e) => Err(e),
            },
            extension_name(),
            PendingKind::VoidUnchecked,
            video_op_bytes(
                old(c)@.ext_major(extension_name()),
                XCB_XV_GET_VIDEO,
                port,
                drawable,
                gc,
                vid_x,
                vid_y,
                vid_w,
                vid_h,
                drw_x,
                drw_y,
                drw_w,
                drw_h,
            ),
        ),
{
    match submit_video_op(
        c,
        PendingKind::VoidUnchecked,
        XCB_XV_GET_VIDEO,
        port,
        drawable,
        gc,
        vid_x,
        vid_y,
        vid_w,
        vid_h,
        drw_x,
        drw_y,
        drw_w,
        drw_h,
    ) {
        Ok(ck) => Ok(VoidCookie { base: ck }),
        Err(e) => Err(e),
    }
}

/// Captures a single frame from a drawable; checked.
pub fn GetStillChecked(
    c: &mut Connection,
    port: Port,
    drawable: xproto::Drawable,
    gc: xproto::Gcontext,
    vid_x: i16,
    vid_y: i16,
    vid_w: u16,
    vid_h: u16,
    drw_x: i16,
    drw_y: i16,
    drw_w: u16,
    drw_h: u16,
) -> (r: Result<VoidCookie, XError>)
    requires
        old(c).wf(),
        old(c)@.next_seq < u64::MAX,
    ensures
        final(c).wf(),
        old(c)@.ext_request_outcome(
            final(c)@,
            match r {
                Ok(ck) => Ok(ck.base),
                Err(e) => Err(e),
            },
            extension_name(),
            PendingKind::VoidChecked,
            video_op_bytes(
                old(c)@.ext_major(extension_name()),
                XCB_XV_GET_STILL,
                port,
                drawable,
                gc,
                vid_x,
                vid_y,
                vid_w,
                vid_h,
                drw_x,
                drw_y,
                drw_w,
                drw_h,
            ),
        ),
{
    match submit_video_op(
        c,
        PendingKind::VoidChecked,
        XCB_XV_GET_STILL,
        port,
        drawable,
        gc,
        vid_x,
        vid_y,
        vid_w,
        vid_h,
        drw_x,
        drw_y,
        drw_w,
        drw_h,
    ) {
        Ok(ck) => Ok(VoidCookie { base: ck }),
        Err(e) => Err(e),
    }
}

/// Captures a single frame from a drawable; unchecked.
pub fn GetStill(
    c: &mut Connection,
    port: Port,
    drawable: xproto::Drawable,
    gc: xproto::Gcontext,
    vid_x: i16,
    vid_y: i16,
    vid_w: u16,
    vid_h: u16,
    drw_x: i16,
    drw_y: i16,
    drw_w: u16,
    drw_h: u16,
) -> (r: Result<VoidCookie, XError>)
    requires
        old(c).wf(),
        old(c)@.next_seq < u64::MAX,
    ensures
        final(c).wf(),
        old(c)@.ext_request_outcome(
            final(c)@,
            match r {
                Ok(ck) => Ok(ck.base),
                Err(e) => Err(e),
            },
            extension_name(),
            PendingKind::VoidUnchecked,
            video_op_bytes(
                old(c)@.ext_major(extension_name()),
                XCB_XV_GET_STILL,
                port,
                drawable,
                gc,
                vid_x,
                vid_y,
                vid_w,
                vid_h,
                drw_x,
                drw_y,
                drw_w,
                drw_h,
            ),
        ),
{
    match submit_video_op(
        c,
        PendingKind::VoidUnchecked,
        XCB_XV_GET_STILL,
        port,
        drawable,
        gc,
        vid_x,
        vid_y,
        vid_w,
        vid_h,
        drw_x,
        drw_y,
        drw_w,
        drw_h,
    ) {
        Ok(ck) => Ok(VoidCookie { base: ck }),
        Err(e) => Err(e),
    }
}

/// Builds and transmits the video stop.
fn submit_stop_video(
    c: &mut Connection,
    kind: PendingKind,
    port: Port,
    drawable: xproto::Drawable,
) -> (r: Result<Cookie, XError>)
    requires
        old(c).wf(),
        old(c)@.next_seq < u64::MAX,
    ensures
        final(c).wf(),
        old(c)@.ext_request_outcome(
            final(c)@,
            r,
            extension_name(),
            kind,
            stop_video_bytes(old(c)@.ext_major(extension_name()), port, drawable),
        ),
{
    let info = match lookup(c) {
        Ok(i) => i,
        Err(e) => {
            return Err(e);
        },
    };
    let mut out: Vec<u8> = Vec::new();
    out.push(info.major_opcode);
    out.push(XCB_XV_STOP_VIDEO);
    push_u16_le(&mut out, 3);
    push_u32_le(&mut out, port);
    push_u32_le(&mut out, drawable);
    proof {
        assert(out@ =~= stop_video_bytes(info.major_opcode, port, drawable));
    }
    c.issue_request(kind, out)
}

/// Stops video on a port; checked.
pub fn StopVideoChecked(c: &mut Connection, port: Port, drawable: xproto::Drawable) -> (r: Result<
    VoidCookie,
    XError,
>)
    requires
        old(c).wf(),
        old(c)@.next_seq < u64::MAX,
    ensures
        final(c).wf(),
        old(c)@.ext_request_outcome(
            final(c)@,
            match r {
                Ok(ck) => Ok(ck.base),
                Err(e) => Err(e),
            },
            extension_name(),
            PendingKind::VoidChecked,
            stop_video_bytes(old(c)@.ext_major(extension_name()), port, drawable),
        ),
{
    match submit_stop_video(c, PendingKind::VoidChecked, port, drawable) {
        Ok(ck) => Ok(VoidCookie { base: ck }),
        Err(e) => Err(e),
    }
}

/// Stops video on a port; unchecked.
pub fn StopVideo(c: &mut Connection, port: Port, drawable: xproto::Drawable) -> (r: Result<
    VoidCookie,
    XError,
>)
    requires
        old(c).wf(),
        old(c)@.next_seq < u64::MAX,
    ensures
        final(c).wf(),
        old(c)@.ext_request_outcome(
            final(c)@,
            match r {
                Ok(ck) => Ok(ck.base),
                Err(e) => Err(e),
            },
            extension_name(),
            PendingKind::VoidUnchecked,
            stop_video_bytes(old(c)@.ext_major(extension_name()), port, drawable),
        ),
{
    match submit_stop_video(c, PendingKind::VoidUnchecked, port, drawable) {
        Ok(ck) => Ok(VoidCookie { base: ck }),
        Err(e) => Err(e),
    }
}

/// Builds and transmits the video-notify selection.
fn submit_select_video_notify(
    c: &mut Connection,
    kind: PendingKind,
    drawable: xproto::Drawable,
    onoff: u8,
) -> (r: Result<Cookie, XError>)
    requires
        old(c).wf(),
        old(c)@.next_seq < u64::MAX,
    ensures
        final(c).wf(),
        old(c)@.ext_request_outcome(
            final(c)@,
            r,
            extension_name(),
            kind,
            select_video_notify_bytes(old(c)@.ext_major(extension_name()), drawable, onoff),
        ),
{
    let info = match lookup(c) {
        Ok(i) => i,
        Err(e) => {
            return Err(e);
        },
    };
    let mut out: Vec<u8> = Vec::new();
    out.push(info.major_opcode);
    out.push(XCB_XV_SELECT_VIDEO_NOTIFY);
    push_u16_le(&mut out, 3);
    push_u32_le(&mut out, drawable);
    out.push(onoff);
    out.push(0u8);
    out.push(0u8);
    out.push(0u8);
    proof {
        assert(out@ =~= select_video_notify_bytes(info.major_opcode, drawable, onoff));
    }
    c.issue_request(kind, out)
}

/// Selects video-notify delivery for a drawable; checked.
pub fn SelectVideoNotifyChecked(c: &mut Connection, drawable: xproto::Drawable, onoff: u8) -> (r:
    Result<VoidCookie, XError>)
    requires
        old(c).wf(),
        old(c)@.next_seq < u64::MAX,
    ensures
        final(c).wf(),
        old(c)@.ext_request_outcome(
            final(c)@,
            match r {
                Ok(ck) => Ok(ck.base),
                Err(e) => Err(e),
            },
            extension_name(),
            PendingKind::VoidChecked,
            select_video_notify_bytes(old(c)@.ext_major(extension_name()), drawable, onoff),
        ),
{
    match submit_select_video_notify(c, PendingKind::VoidChecked, drawable, onoff) {
        Ok(ck) => Ok(VoidCookie { base: ck }),
        Err(e) => Err(e),
    }
}

/// Selects video-notify delivery for a drawable; unchecked.
pub fn SelectVideoNotify(c: &mut Connection, drawable: xproto::Drawable, onoff: u8) -> (r: Result<
    VoidCookie,
    XError,
>)
    requires
        old(c).wf(),
        old(c)@.next_seq < u64::MAX,
    ensures
        final(c).wf(),
        old(c)@.ext_request_outcome(
            final(c)@,
            match r {
                Ok(ck) => Ok(ck.base),
                Err(e) => Err(e),
            },
            extension_name(),
            PendingKind::VoidUnchecked,
            select_video_notify_bytes(old(c)@.ext_major(extension_name()), drawable, onoff),
        ),
{
    match submit_select_video_notify(c, PendingKind::VoidUnchecked, drawable, onoff) {
        Ok(ck) => Ok(VoidCookie { base: ck }),
        Err(e) => Err(e),
    }
}

/// Builds and transmits the port-notify selection.
fn submit_select_port_notify(c: &mut Connection, kind: PendingKind, port: Port, onoff: u8) -> (r:
    Result<Cookie, XError>)
    requires
        old(c).wf(),
        old(c)@.next_seq < u64::MAX,
    ensures
        final(c).wf(),
        old(c)@.ext_request_outcome(
            final(c)@,
            r,
            extension_name(),
            kind,
            select_port_notify_bytes(old(c)@.ext_major(extension_name()), port, onoff),
        ),
{
    let info = match lookup(c) {
        Ok(i) => i,
        Err(e) => {
            return Err(e);
        },
    };
    let mut out: Vec<u8> = Vec::new();
    out.push(info.major_opcode);
    out.push(XCB_XV_SELECT_PORT_NOTIFY);
    push_u16_le(&mut out, 3);
    push_u32_le(&mut out, port);
    out.push(onoff);
    out.push(0u8);
    out.push(0u8);
    out.push(0u8);
    proof {
        assert(out@ =~= select_port_notify_bytes(info.major_opcode, port, onoff));
    }
    c.issue_request(kind, out)
}

/// Selects port-notify delivery for a port; checked.
pub fn SelectPortNotifyChecked(c: &mut Connection, port: Port, onoff: u8) -> (r: Result<
    VoidCookie,
    XError,
>)
    requires
        old(c).wf(),
        old(c)@.next_seq < u64::MAX,
    ensures
        final(c).wf(),
        old(c)@.ext_request_outcome(
            final(c)@,
            match r {
                Ok(ck) => Ok(ck.base),
                Err(e) => Err(e),
            },
            extension_name(),
            PendingKind::VoidChecked,
            select_port_notify_bytes(old(c)@.ext_major(extension_name()), port, onoff),
        ),
{
    match submit_select_port_notify(c, PendingKind::VoidChecked, port, onoff) {
        Ok(ck) => Ok(VoidCookie { base: ck }),
        Err(e) => Err(e),
    }
}

/// Selects port-notify delivery for a port; unchecked.
pub fn SelectPortNotify(c: &mut Connection, port: Port, onoff: u8) -> (r: Result<
    VoidCookie,
    XError,
>)
    requires
        old(c).wf(),
        old(c)@.next_seq < u64::MAX,
    ensures
        final(c).wf(),
        old(c)@.ext_request_outcome(
            final(c)@,
            match r {
                Ok(ck) => Ok(ck.base),
                Err(e) => Err(e),
            },
            extension_name(),
            PendingKind::VoidUnchecked,
            select_port_notify_bytes(old(c)@.ext_major(extension_name()), port, onoff),
        ),
{
    match submit_select_port_notify(c, PendingKind::VoidUnchecked, port, onoff) {
        Ok(ck) => Ok(VoidCookie { base: ck }),
        Err(e) => Err(e),
    }
}

/// Builds and transmits the best-size query.
fn submit_query_best_size(
    c: &mut Connection,
    checked: bool,
    port: Port,
    vid_w: u16,
    vid_h: u16,
    drw_w: u16,
    drw_h: u16,
    motion: u8,
) -> (r: Result<Cookie, XError>)
    requires
        old(c).wf(),
        old(c)@.next_seq < u64::MAX,
    ensures
        final(c).wf(),
        old(c)@.ext_request_outcome(
            final(c)@,
            r,
            extension_name(),
            PendingKind::Reply { checked },
            query_best_size_bytes(
                old(c)@.ext_major(extension_name()),
                port,
                vid_w,
                vid_h,
                drw_w,
                drw_h,
                motion,
            ),
        ),
{
    let info = match lookup(c) {
        Ok(i) => i,
        Err(e) => {
            return Err(e);
        },
    };
    let mut out: Vec<u8> = Vec::new();
    out.push(info.major_opcode);
    out.push(XCB_XV_QUERY_BEST_SIZE);
    push_u16_le(&mut out, 5);
    push_u32_le(&mut out, port);
    push_u16_le(&mut out, vid_w);
    push_u16_le(&mut out, vid_h);
    push_u16_le(&mut out, drw_w);
    push_u16_le(&mut out, drw_h);
    out.push(motion);
    out.push(0u8);
    out.push(0u8);
    out.push(0u8);
    proof {
        assert(out@ =~= query_best_size_bytes(
            info.major_opcode,
            port,
            vid_w,
            vid_h,
            drw_w,
            drw_h,
            motion,
        ));
    }
    c.issue_request(PendingKind::Reply { checked }, out)
}

/// Issues a checked best-size query.
pub fn QueryBestSize(
    c: &mut Connection,
    port: Port,
    vid_w: u16,
    vid_h: u16,
    drw_w: u16,
    drw_h: u16,
    motion: u8,
) -> (r: Result<QueryBestSizeCookie, XError>)
    requires
        old(c).wf(),
        old(c)@.next_seq < u64::MAX,
    ensures
        final(c).wf(),
        old(c)@.ext_request_outcome(
            final(c)@,
            match r {
                Ok(ck) => Ok(ck.base),
                Err(e) => Err(e),
            },
            extension_name(),
            PendingKind::Reply { checked: true },
            query_best_size_bytes(
                old(c)@.ext_major(extension_name()),
                port,
                vid_w,
                vid_h,
                drw_w,
                drw_h,
                motion,
            ),
        ),
{
    match submit_query_best_size(c, true, port, vid_w, vid_h, drw_w, drw_h, motion) {
        Ok(ck) => Ok(QueryBestSizeCookie { base: ck }),
        Err(e) => Err(e),
    }
}

/// Issues an unchecked best-size query.
pub fn QueryBestSizeUnchecked(
    c: &mut Connection,
    port: Port,
    vid_w: u16,
    vid_h: u16,
    drw_w: u16,
    drw_h: u16,
    motion: u8,
) -> (r: Result<QueryBestSizeCookie, XError>)
    requires
        old(c).wf(),
        old(c)@.next_seq < u64::MAX,
    ensures
        final(c).wf(),
        old(c)@.ext_request_outcome(
            final(c)@,
            match r {
                Ok(ck) => Ok(ck.base),
                Err(e) => Err(e),
            },
            extension_name(),
            PendingKind::Reply { checked: false },
            query_best_size_bytes(
                old(c)@.ext_major(extension_name()),
                port,
                vid_w,
                vid_h,
                drw_w,
                drw_h,
                motion,
            ),
        ),
{
    match submit_query_best_size(c, false, port, vid_w, vid_h, drw_w, drw_h, motion) {
        Ok(ck) => Ok(QueryBestSizeCookie { base: ck }),
        Err(e) => Err(e),
    }
}

/// Builds and transmits the attribute setting.
fn submit_set_port_attribute(
    c: &mut Connection,
    kind: PendingKind,
    port: Port,
    attribute: xproto::Atom,
    value: i32,
) -> (r: Result<Cookie, XError>)
    requires
        old(c).wf(),
        old(c)@.next_seq < u64::MAX,
    ensures
        final(c).wf(),
        old(c)@.ext_request_outcome(
            final(c)@,
            r,
            extension_name(),
            kind,
            set_port_attribute_bytes(old(c)@.ext_major(extension_name()), port, attribute, value),
        ),
{
    let info = match lookup(c) {
        Ok(i) => i,
        Err(e) => {
            return Err(e);
        },
    };
    let mut out: Vec<u8> = Vec::new();
    out.push(info.major_opcode);
    out.push(XCB_XV_SET_PORT_ATTRIBUTE);
    push_u16_le(&mut out, 4);
    push_u32_le(&mut out, port);
    push_u32_le(&mut out, attribute);
    push_u32_le(&mut out, i32_to_u32(value));
    proof {
        assert(out@ =~= set_port_attribute_bytes(info.major_opcode, port, attribute, value));
    }
    c.issue_request(kind, out)
}

/// Sets a port attribute; checked.
pub fn SetPortAttributeChecked(
    c: &mut Connection,
    port: Port,
    attribute: xproto::Atom,
    value: i32,
) -> (r: Result<VoidCookie, XError>)
    requires
        old(c).wf(),
        old(c)@.next_seq < u64::MAX,
    ensures
        final(c).wf(),
        old(c)@.ext_request_outcome(
            final(c)@,
            match r {
                Ok(ck) => Ok(ck.base),
                Err(e) => Err(e),
            },
            extension_name(),
            PendingKind::VoidChecked,
            set_port_attribute_bytes(old(c)@.ext_major(extension_name()), port, attribute, value),
        ),
{
    match submit_set_port_attribute(c, PendingKind::VoidChecked, port, attribute, value) {
        Ok(ck) => Ok(VoidCookie { base: ck }),
        Err(e) => Err(e),
    }
}

/// Sets a port attribute; unchecked.
pub fn SetPortAttribute(
    c: &mut Connection,
    port: Port,
    attribute: xproto::Atom,
    value: i32,
) -> (r: Result<VoidCookie, XError>)
    requires
        old(c).wf(),
        old(c)@.next_seq < u64::MAX,
    ensures
        final(c).wf(),
        old(c)@.ext_request_outcome(
            final(c)@,
            match r {
                Ok(ck) => Ok(ck.base),
                Err(e) => Err(e),
            },
            extension_name(),
            PendingKind::VoidUnchecked,
            set_port_attribute_bytes(old(c)@.ext_major(extension_name()), port, attribute, value),
        ),
{
    match submit_set_port_attribute(c, PendingKind::VoidUnchecked, port, attribute, value) {
        Ok(ck) => Ok(VoidCookie { base: ck }),
        Err(e) => Err(e),
    }
}

/// Builds and transmits the attribute query.
fn submit_get_port_attribute(
    c: &mut Connection,
    checked: bool,
    port: Port,
    attribute: xproto::Atom,
) -> (r: Result<Cookie, XError>)
    requires
        old(c).wf(),
        old(c)@.next_seq < u64::MAX,
    ensures
        final(c).wf(),
        old(c)@.ext_request_outcome(
            final(c)@,
            r,
            extension_name(),
            PendingKind::Reply { checked },
            get_port_attribute_bytes(old(c)@.ext_major(extension_name()), port, attribute),
        ),
{
    let info = match lookup(c) {
        Ok(i) => i,
        Err(e) => {
            return Err(e);
        },
    };
    let mut out: Vec<u8> = Vec::new();
    out.push(info.major_opcode);
    out.push(XCB_XV_GET_PORT_ATTRIBUTE);
    push_u16_le(&mut out, 3);
    push_u32_le(&mut out, port);
    push_u32_le(&mut out, attribute);
    proof {
        assert(out@ =~= get_port_attribute_bytes(info.major_opcode, port, attribute));
    }
    c.issue_request(PendingKind::Reply { checked }, out)
}

/// Issues a checked attribute query.
pub fn GetPortAttribute(c: &mut Connection, port: Port, attribute: xproto::Atom) -> (r: Result<
    GetPortAttributeCookie,
    XError,
>)
    requires
        old(c).wf(),
        old(c)@.next_seq < u64::MAX,
    ensures
        final(c).wf(),
        old(c)@.ext_request_outcome(
            final(c)@,
            match r {
                Ok(ck) => Ok(ck.base),
                Err(e) => Err(e),
            },
            extension_name(),
            PendingKind::Reply { checked: true },
            get_port_attribute_bytes(old(c)@.ext_major(extension_name()), port, attribute),
        ),
{
    match submit_get_port_attribute(c, true, port, attribute) {
        Ok(ck) => Ok(GetPortAttributeCookie { base: ck }),
        Err(e) => Err(e),
    }
}

/// Issues an unchecked attribute query.
pub fn GetPortAttributeUnchecked(
    c: &mut Connection,
    port: Port,
    attribute: xproto::Atom,
) -> (r: Result<GetPortAttributeCookie, XError>)
    requires
        old(c).wf(),
        old(c)@.next_seq < u64::MAX,
    ensures
        final(c).wf(),
        old(c)@.ext_request_outcome(
            final(c)@,
            match r {
                Ok(ck) => Ok(ck.base),
                Err(e) => Err(e),
            },
            extension_name(),
            PendingKind::Reply { checked: false },
            get_port_attribute_bytes(old(c)@.ext_major(extension_name()), port, attribute),
        ),
{
    match submit_get_port_attribute(c, false, port, attribute) {
        Ok(ck) => Ok(GetPortAttributeCookie { base: ck }),
        Err(e) => Err(e),
    }
}

/// Builds and transmits the port attribute listing.
fn submit_query_port_attributes(c: &mut Connection, checked: bool, port: Port) -> (r: Result<
    Cookie,
    XError,
>)
    requires
        old(c).wf(),
        old(c)@.next_seq < u64::MAX,
    ensures
        final(c).wf(),
        old(c)@.ext_request_outcome(
            final(c)@,
            r,
            extension_name(),
            PendingKind::Reply { checked },
            query_port_attributes_bytes(old(c)@.ext_major(extension_name()), port),
        ),
{
    let info = match lookup(c) {
        Ok(i) => i,
        Err(e) => {
            return Err(e);
        },
    };
    let mut out: Vec<u8> = Vec::new();
    out.push(info.major_opcode);
    out.push(XCB_XV_QUERY_PORT_ATTRIBUTES);
    push_u16_le(&mut out, 2);
    push_u32_le(&mut out, port);
    proof {
        assert(out@ =~= query_port_attributes_bytes(info.major_opcode, port));
    }
    c.issue_request(PendingKind::Reply { checked }, out)
}

/// Issues a checked port attribute listing.
pub fn QueryPortAttributes(c: &mut Connection, port: Port) -> (r: Result<
    QueryPortAttributesCookie,
    XError,
>)
    requires
        old(c).wf(),
        old(c)@.next_seq < u64::MAX,
    ensures
        final(c).wf(),
        old(c)@.ext_request_outcome(
            final(c)@,
            match r {
                Ok(ck) => Ok(ck.base),
                Err(e) => Err(e),
            },
            extension_name(),
            PendingKind::Reply { checked: true },
            query_port_attributes_bytes(old(c)@.ext_major(extension_name()), port),
        ),
{
    match submit_query_port_attributes(c, true, port) {
        Ok(ck) => Ok(QueryPortAttributesCookie { base: ck }),
        Err(e) => Err(e),
    }
}

/// Issues an unchecked port attribute listing.
pub fn QueryPortAttributesUnchecked(c: &mut Connection, port: Port) -> (r: Result<
    QueryPortAttributesCookie,
    XError,
>)
    requires
        old(c).wf(),
        old(c)@.next_seq < u64::MAX,
    ensures
        final(c).wf(),
        old(c)@.ext_request_outcome(
            final(c)@,
            match r {
                Ok(ck) => Ok(ck.base),
                Err(e) => Err(e),
            },
            extension_name(),
            PendingKind::Reply { checked: false },
            query_port_attributes_bytes(old(c)@.ext_major(extension_name()), port),
        ),
{
    match submit_query_port_attributes(c, false, port) {
        Ok(ck) => Ok(QueryPortAttributesCookie { base: ck }),
        Err(e) => Err(e),
    }
}

/// Builds and transmits the image format listing.
fn submit_list_image_formats(c: &mut Connection, checked: bool, port: Port) -> (r: Result<
    Cookie,
    XError,
>)
    requires
        old(c).wf(),
        old(c)@.next_seq < u64::MAX,
    ensures
        final(c).wf(),
        old(c)@.ext_request_outcome(
            final(c)@,
            r,
            extension_name(),
            PendingKind::Reply { checked },
            list_image_formats_bytes(old(c)@.ext_major(extension_name()), port),
        ),
{
    let info = match lookup(c) {
        Ok(i) => i,
        Err(e) => {
            return Err(e);
        },
    };
    let mut out: Vec<u8> = Vec::new();
    out.push(info.major_opcode);
    out.push(XCB_XV_LIST_IMAGE_FORMATS);
    push_u16_le(&mut out, 2);
    push_u32_le(&mut out, port);
    proof {
        assert(out@ =~= list_image_formats_bytes(info.major_opcode, port));
    }
    c.issue_request(PendingKind::Reply { checked }, out)
}

/// Issues a checked image format listing.
pub fn ListImageFormats(c: &mut Connection, port: Port) -> (r: Result<
    ListImageFormatsCookie,
    XError,
>)
    requires
        old(c).wf(),
        old(c)@.next_seq < u64::MAX,
    ensures
        final(c).wf(),
        old(c)@.ext_request_outcome(
            final(c)@,
            match r {
                Ok(ck) => Ok(ck.base),
                Err(e) => Err(e),
            },
            extension_name(),
            PendingKind::Reply { checked: true },
            list_image_formats_bytes(old(c)@.ext_major(extension_name()), port),
        ),
{
    match submit_list_image_formats(c, true, port) {
        Ok(ck) => Ok(ListImageFormatsCookie { base: ck }),
        Err(e) => Err(e),
    }
}

/// Issues an unchecked image format listing.
pub fn ListImageFormatsUnchecked(c: &mut Connection, port: Port) -> (r: Result<
    ListImageFormatsCookie,
    XError,
>)
    requires
        old(c).wf(),
        old(c)@.next_seq < u64::MAX,
    ensures
        final(c).wf(),
        old(c)@.ext_request_outcome(
            final(c)@,
            match r {
                Ok(ck) => Ok(ck.base),
                Err(e) => Err(e),
            },
            extension_name(),
            PendingKind::Reply { checked: false },
            list_image_formats_bytes(old(c)@.ext_major(extension_name()), port),
        ),
{
    match submit_list_image_formats(c, false, port) {
        Ok(ck) => Ok(ListImageFormatsCookie { base: ck }),
        Err(e) => Err(e),
    }
}

/// Builds and transmits the image attribute query.
fn submit_query_image_attributes(
    c: &mut Connection,
    checked: bool,
    port: Port,
    id: u32,
    width: u16,
    height: u16,
) -> (r: Result<Cookie, XError>)
    requires
        old(c).wf(),
        old(c)@.next_seq < u64::MAX,
    ensures
        final(c).wf(),
        old(c)@.ext_request_outcome(
            final(c)@,
            r,
            extension_name(),
            PendingKind::Reply { checked },
            query_image_attributes_bytes(
                old(c)@.ext_major(extension_name()),
                port,
                id,
                width,
                height,
            ),
        ),
{
    let info = match lookup(c) {
        Ok(i) => i,
        Err(e) => {
            return Err(e);
        },
    };
    let mut out: Vec<u8> = Vec::new();
    out.push(info.major_opcode);
    out.push(XCB_XV_QUERY_IMAGE_ATTRIBUTES);
    push_u16_le(&mut out, 4);
    push_u32_le(&mut out, port);
    push_u32_le(&mut out, id);
    push_u16_le(&mut out, width);
    push_u16_le(&mut out, height);
    proof {
        assert(out@ =~= query_image_attributes_bytes(info.major_opcode, port, id, width, height));
    }
    c.issue_request(PendingKind::Reply { checked }, out)
}

/// Issues a checked image attribute query.
pub fn QueryImageAttributes(
    c: &mut Connection,
    port: Port,
    id: u32,
    width: u16,
    height: u16,
) -> (r: Result<QueryImageAttributesCookie, XError>)
    requires
        old(c).wf(),
        old(c)@.next_seq < u64::MAX,
    ensures
        final(c).wf(),
        old(c)@.ext_request_outcome(
            final(c)@,
            match r {
                Ok(ck) => Ok(ck.base),
                Err(e) => Err(e),
            },
            extension_name(),
            PendingKind::Reply { checked: true },
            query_image_attributes_bytes(
                old(c)@.ext_major(extension_name()),
                port,
                id,
                width,
                height,
            ),
        ),
{
    match submit_query_image_attributes(c, true, port, id, width, height) {
        Ok(ck) => Ok(QueryImageAttributesCookie { base: ck }),
        Err(e) => Err(e),
    }
}

/// Issues an unchecked image attribute query.
pub fn QueryImageAttributesUnchecked(
    c: &mut Connection,
    port: Port,
    id: u32,
    width: u16,
    height: u16,
) -> (r: Result<QueryImageAttributesCookie, XError>)
    requires
        old(c).wf(),
        old(c)@.next_seq < u64::MAX,
    ensures
        final(c).wf(),
        old(c)@.ext_request_outcome(
            final(c)@,
            match r {
                Ok(ck) => Ok(ck.base),
                Err(e) => Err(e),
            },
            extension_name(),
            PendingKind::Reply { checked: false },
            query_image_attributes_bytes(
                old(c)@.ext_major(extension_name()),
                port,
                id,
                width,
                height,
            ),
        ),
{
    match submit_query_image_attributes(c, false, port, id, width, height) {
        Ok(ck) => Ok(QueryImageAttributesCookie { base: ck }),
        Err(e) => Err(e),
    }
}

/// Builds and transmits the image transfer.
fn submit_put_image(
    c: &mut Connection,
    kind: PendingKind,
    port: Port,
    drawable: xproto::Drawable,
    gc: xproto::Gcontext,
    id: u32,
    src_x: i16,
    src_y: i16,
    src_w: u16,
    src_h: u16,
    drw_x: i16,
    drw_y: i16,
    drw_w: u16,
    drw_h: u16,
    width: u16,
    height: u16,
    data: &Vec<u8>,
) -> (r: Result<Cookie, XError>)
    requires
        old(c).wf(),
        old(c)@.next_seq < u64::MAX,
        data@.len() <= 262100,
    ensures
        final(c).wf(),
        old(c)@.ext_request_outcome(
            final(c)@,
            r,
            extension_name(),
            kind,
            put_image_bytes(
                old(c)@.ext_major(extension_name()),
                port,
                drawable,
                gc,
                id,
                src_x,
                src_y,
                src_w,
                src_h,
                drw_x,
                drw_y,
                drw_w,
                drw_h,
                width,
                height,
                data@,
            ),
        ),
{
    let info = match lookup(c) {
        Ok(i) => i,
        Err(e) => {
            return Err(e);
        },
    };
    proof {
        lemma_pad4_bounds(data@.len() as int);
    }
    let n = data.len();
    let padded = pad4_len(n);
    let mut out: Vec<u8> = Vec::new();
    out.push(info.major_opcode);
    out.push(XCB_XV_PUT_IMAGE);
    push_u16_le(&mut out, ((40 + padded) / 4) as u16);
    push_u32_le(&mut out, port);
    push_u32_le(&mut out, drawable);
    push_u32_le(&mut out, gc);
    push_u32_le(&mut out, id);
    push_u16_le(&mut out, i16_to_u16(src_x));
    push_u16_le(&mut out, i16_to_u16(src_y));
    push_u16_le(&mut out, src_w);
    push_u16_le(&mut out, src_h);
    push_u16_le(&mut out, i16_to_u16(drw_x));
    push_u16_le(&mut out, i16_to_u16(drw_y));
    push_u16_le(&mut out, drw_w);
    push_u16_le(&mut out, drw_h);
    push_u16_le(&mut out, width);
    push_u16_le(&mut out, height);
    push_bytes(&mut out, data);
    push_zeros(&mut out, padded - n);
    proof {
        assert(out@ =~= put_image_bytes(
            info.major_opcode,
            port,
            drawable,
            gc,
            id,
            src_x,
            src_y,
            src_w,
            src_h,
            drw_x,
            drw_y,
            drw_w,
            drw_h,
            width,
            height,
            data@,
        ));
    }
    c.issue_request(kind, out)
}

/// Transfers image data to a port; checked.
pub fn PutImageChecked(
    c: &mut Connection,
    port: Port,
    drawable: xproto::Drawable,
    gc: xproto::Gcontext,
    id: u32,
    src_x: i16,
    src_y: i16,
    src_w: u16,
    src_h: u16,
    drw_x: i16,
    drw_y: i16,
    drw_w: u16,
    drw_h: u16,
    width: u16,
    height: u16,
    data: &Vec<u8>,
) -> (r: Result<VoidCookie, XError>)
    requires
        old(c).wf(),
        old(c)@.next_seq < u64::MAX,
        data@.len() <= 262100,
    ensures
        final(c).wf(),
        old(c)@.ext_request_outcome(
            final(c)@,
            match r {
                Ok(ck) => Ok(ck.base),
                Err(e) => Err(e),
            },
            extension_name(),
            PendingKind::VoidChecked,
            put_image_bytes(
                old(c)@.ext_major(extension_name()),
                port,
                drawable,
                gc,
                id,
                src_x,
                src_y,
                src_w,
                src_h,
                drw_x,
                drw_y,
                drw_w,
                drw_h,
                width,
                height,
                data@,
            ),
        ),
{
    match submit_put_image(
        c,
        PendingKind::VoidChecked,
        port,
        drawable,
        gc,
        id,
        src_x,
        src_y,
        src_w,
        src_h,
        drw_x,
        drw_y,
        drw_w,
        drw_h,
        width,
        height,
        data,
    ) {
        Ok(ck) => Ok(VoidCookie { base: ck }),
        Err(e) => Err(e),
    }
}

/// Transfers image data to a port; unchecked.
pub fn PutImage(
    c: &mut Connection,
    port: Port,
    drawable: xproto::Drawable,
    gc: xproto::Gcontext,
    id: u32,
    src_x: i16,
    src_y: i16,
    src_w: u16,
    src_h: u16,
    drw_x: i16,
    drw_y: i16,
    drw_w: u16,
    drw_h: u16,
    width: u16,
    height: u16,
    data: &Vec<u8>,
) -> (r: Result<VoidCookie, XError>)
    requires
        old(c).wf(),
        old(c)@.next_seq < u64::MAX,
        data@.len() <= 262100,
    ensures
        final(c).wf(),
        old(c)@.ext_request_outcome(
            final(c)@,
            match r {
                Ok(ck) => Ok(ck.base),
                Err(e) => Err(e),
            },
            extension_name(),
            PendingKind::VoidUnchecked,
            put_image_bytes(
                old(c)@.ext_major(extension_name()),
                port,
                drawable,
                gc,
                id,
                src_x,
                src_y,
                src_w,
                src_h,
                drw_x,
                drw_y,
                drw_w,
                drw_h,
                width,
                height,
                data@,
            ),
        ),
{
    match submit_put_image(
        c,
        PendingKind::VoidUnchecked,
        port,
        drawable,
        gc,
        id,
        src_x,
        src_y,
        src_w,
        src_h,
        drw_x,
        drw_y,
        drw_w,
        drw_h,
        width,
        height,
        data,
    ) {
        Ok(ck) => Ok(VoidCookie { base: ck }),
        Err(e) => Err(e),
    }
}

/// Builds and transmits the shared-memory image transfer.
fn submit_shm_put_image(
    c: &mut Connection,
    kind: PendingKind,
    port: Port,
    drawable: xproto::Drawable,
    gc: xproto::Gcontext,
    shmseg: shm::Seg,
    id: u32,
    offset: u32,
    src_x: i16,
    src_y: i16,
    src_w: u16,
    src_h: u16,
    drw_x: i16,
    drw_y: i16,
    drw_w: u16,
    drw_h: u16,
    width: u16,
    height: u16,
    send_event: u8,
) -> (r: Result<Cookie, XError>)
    requires
        old(c).wf(),
        old(c)@.next_seq < u64::MAX,
    ensures
        final(c).wf(),
        old(c)@.ext_request_outcome(
            final(c)@,
            r,
            extension_name(),
            kind,
            shm_put_image_bytes(
                old(c)@.ext_major(extension_name()),
                port,
                drawable,
                gc,
                shmseg,
                id,
                offset,
                src_x,
                src_y,
                src_w,
                src_h,
                drw_x,
                drw_y,
                drw_w,
                drw_h,
                width,
                height,
                send_event,
            ),
        ),
{
    let info = match lookup(c) {
        Ok(i) => i,
        Err(e) => {
            return Err(e);
        },
    };
    let mut out: Vec<u8> = Vec::new();
    out.push(info.major_opcode);
    out.push(XCB_XV_SHM_PUT_IMAGE);
    push_u16_le(&mut out, 13);
    push_u32_le(&mut out, port);
    push_u32_le(&mut out, drawable);
    push_u32_le(&mut out, gc);
    push_u32_le(&mut out, shmseg);
    push_u32_le(&mut out, id);
    push_u32_le(&mut out, offset);
    push_u16_le(&mut out, i16_to_u16(src_x));
    push_u16_le(&mut out, i16_to_u16(src_y));
    push_u16_le(&mut out, src_w);
    push_u16_le(&mut out, src_h);
    push_u16_le(&mut out, i16_to_u16(drw_x));
    push_u16_le(&mut out, i16_to_u16(drw_y));
    push_u16_le(&mut out, drw_w);
    push_u16_le(&mut out, drw_h);
    push_u16_le(&mut out, width);
    push_u16_le(&mut out, height);
    out.push(send_event);
    out.push(0u8);
    out.push(0u8);
    out.push(0u8);
    proof {
        assert(out@ =~= shm_put_image_bytes(
            info.major_opcode,
            port,
            drawable,
            gc,
            shmseg,
            id,
            offset,
            src_x,
            src_y,
            src_w,
            src_h,
            drw_x,
            drw_y,
            drw_w,
            drw_h,
            width,
            height,
            send_event,
        ));
    }
    c.issue_request(kind, out)
}

/// Transfers image data from a shared-memory segment; checked.
pub fn ShmPutImageChecked(
    c: &mut Connection,
    port: Port,
    drawable: xproto::Drawable,
    gc: xproto::Gcontext,
    shmseg: shm::Seg,
    id: u32,
    offset: u32,
    src_x: i16,
    src_y: i16,
    src_w: u16,
    src_h: u16,
    drw_x: i16,
    drw_y: i16,
    drw_w: u16,
    drw_h: u16,
    width: u16,
    height: u16,
    send_event: u8,
) -> (r: Result<VoidCookie, XError>)
    requires
        old(c).wf(),
        old(c)@.next_seq < u64::MAX,
    ensures
        final(c).wf(),
        old(c)@.ext_request_outcome(
            final(c)@,
            match r {
                Ok(ck) => Ok(ck.base),
                Err(e) => Err(e),
            },
            extension_name(),
            PendingKind::VoidChecked,
            shm_put_image_bytes(
                old(c)@.ext_major(extension_name()),
                port,
                drawable,
                gc,
                shmseg,
                id,
                offset,
                src_x,
                src_y,
                src_w,
                src_h,
                drw_x,
                drw_y,
                drw_w,
                drw_h,
                width,
                height,
                send_event,
            ),
        ),
{
    match submit_shm_put_image(
        c,
        PendingKind::VoidChecked,
        port,
        drawable,
        gc,
        shmseg,
        id,
        offset,
        src_x,
        src_y,
        src_w,
        src_h,
        drw_x,
        drw_y,
        drw_w,
        drw_h,
        width,
        height,
        send_event,
    ) {
        Ok(ck) => Ok(VoidCookie { base: ck }),
        Err(e) => Err(e),
    }
}

/// Transfers image data from a shared-memory segment; unchecked.
pub fn ShmPutImage(
    c: &mut Connection,
    port: Port,
    drawable: xproto::Drawable,
    gc: xproto::Gcontext,
    shmseg: shm::Seg,
    id: u32,
    offset: u32,
    src_x: i16,
    src_y: i16,
    src_w: u16,
    src_h: u16,
    drw_x: i16,
    drw_y: i16,
    drw_w: u16,
    drw_h: u16,
    width: u16,
    height: u16,
    send_event: u8,
) -> (r: Result<VoidCookie, XError>)
    requires
        old(c).wf(),
        old(c)@.next_seq < u64::MAX,
    ensures
        final(c).wf(),
        old(c)@.ext_request_outcome(
            final(c)@,
            match r {
                Ok(ck) => Ok(ck.base),
                Err(e) => Err(e),
            },
            extension_name(),
            PendingKind::VoidUnchecked,
            shm_put_image_bytes(
                old(c)@.ext_major(extension_name()),
                port,
                drawable,
                gc,
                shmseg,
                id,
                offset,
                src_x,
                src_y,
                src_w,
                src_h,
                drw_x,
                drw_y,
                drw_w,
                drw_h,
                width,
                height,
                send_event,
            ),
        ),
{
    match submit_shm_put_image(
        c,
        PendingKind::VoidUnchecked,
        port,
        drawable,
        gc,
        shmseg,
        id,
        offset,
        src_x,
        src_y,
        src_w,
        src_h,
        drw_x,
        drw_y,
        drw_w,
        drw_h,
        width,
        height,
        send_event,
    ) {
        Ok(ck) => Ok(VoidCookie { base: ck }),
        Err(e) => Err(e),
    }
}

/// The reply to an extension version query; owns its buffer.
#[derive(Debug)]
pub struct QueryExtensionReply {
    pub bytes: Vec<u8>,
}

impl QueryExtensionReply {
    /// The buffer holds at least the fixed reply header.
    pub open spec fn wf(self) -> bool {
        self.bytes@.len() >= 32
    }

    pub fn major(&self) -> (r: u16)
        requires
            self.wf(),
        ensures
            r == u16_at(self.bytes@, 8),
    {
        read_u16_le(&self.bytes, 8)
    }

    pub fn minor(&self) -> (r: u16)
        requires
            self.wf(),
        ensures
            r == u16_at(self.bytes@, 10),
    {
        read_u16_le(&self.bytes, 10)
    }
}

impl QueryExtensionCookie {
    /// Redeems the cookie for the version reply once it has been delivered.
    pub fn resolve(&self, c: &mut Connection) -> (r: Result<Option<QueryExtensionReply>, XError>)
        requires
            old(c).wf(),
        ensures
            final(c).wf(),
            ({
                let (c2, rr) = old(c)@.spec_try_resolve(self.base);
                final(c)@ == c2 && match (r, rr) {
                    (Ok(Some(rep)), Ok(Some(sb))) => rep.bytes@ == sb && rep.wf(),
                    (Ok(None), Ok(None)) => true,
                    (Err(e), Err(se)) => e == se,
                    _ => false,
                }
            }),
    {
        match c.try_resolve(&self.base) {
            Ok(Some(b)) => Ok(Some(QueryExtensionReply { bytes: b })),
            Ok(None) => Ok(None),
            Err(e) => Err(e),
        }
    }
}

/// Walks the declared adaptor records and confirms that each lies inside the
/// buffer — the validation that keeps every later cursor step in bounds.
fn check_adaptor_list(b: &Vec<u8>, off: usize, k: usize) -> (r: bool)
    requires
        off <= b@.len(),
    ensures
        r == adaptor_list_wf(b@, off as int, k as nat),
{
    let ln = b.len();
    let mut cur: usize = off;
    let mut rem: usize = k;
    while rem > 0
        invariant
            ln == b@.len(),
            cur <= ln,
            adaptor_list_wf(b@, off as int, k as nat) == adaptor_list_wf(
                b@,
                cur as int,
                rem as nat,
            ),
        decreases rem,
    {
        proof {
            lemma_pad4_bounds(u16_at(b@, cur as int + 4) as int);
        }
        if ln - cur < 12 {
            return false;
        }
        let ns = read_u16_le(b, cur + 4) as usize;
        let nf = read_u16_le(b, cur + 8) as usize;
        let padded = pad4_len(ns);
        let size64 = 12u64 + (padded as u64) + 8u64 * (nf as u64);
        if ((ln - cur) as u64) < size64 {
            return false;
        }
        cur = cur + (size64 as usize);
        rem = rem - 1;
    }
    true
}

/// The reply to an adaptor query; owns its buffer.
#[derive(Debug)]
pub struct QueryAdaptorsReply {
    pub bytes: Vec<u8>,
}

impl QueryAdaptorsReply {
    /// Header present and every declared adaptor record within bounds.
    pub open spec fn wf(self) -> bool {
        &&& self.bytes@.len() >= 32
        &&& adaptor_list_wf(self.bytes@, 32, u16_at(self.bytes@, 8) as nat)
    }

    /// Number of packed adaptor records.
    pub open spec fn spec_num_adaptors(self) -> u16 {
        u16_at(self.bytes@, 8)
    }

    pub fn num_adaptors(&self) -> (r: u16)
        requires
            self.wf(),
        ensures
            r == self.spec_num_adaptors(),
    {
        read_u16_le(&self.bytes, 8)
    }

    /// A fresh iterator over the packed adaptor records.
    pub fn info(&self) -> (it: AdaptorInfoIterator)
        requires
            self.wf(),
        ensures
            it.wf_for(self.bytes@),
            it.off == 32,
            it.rem == self.spec_num_adaptors(),
    {
        let n = read_u16_le(&self.bytes, 8);
        AdaptorInfoIterator { off: 32, rem: n as usize }
    }
}

impl QueryAdaptorsCookie {
    /// Redeems the cookie for the adaptor reply once delivered. A reply
    /// whose declared records overrun the buffer is malformed, which is
    /// fatal: the connection closes.
    pub fn resolve(&self, c: &mut Connection) -> (r: Result<Option<QueryAdaptorsReply>, XError>)
        requires
            old(c).wf(),
        ensures
            final(c).wf(),
            ({
                let (c2, rr) = old(c)@.spec_try_resolve(self.base);
                match (r, rr) {
                    (Ok(Some(rep)), Ok(Some(sb))) => final(c)@ == c2 && rep.bytes@ == sb
                        && rep.wf(),
                    (Ok(None), Ok(None)) => final(c)@ == c2,
                    (Err(XError::Malformed), Ok(Some(sb))) => !adaptor_list_wf(
                        sb,
                        32,
                        u16_at(sb, 8) as nat,
                    ) && final(c)@ == c2.spec_close(),
                    (Err(e), Err(se)) => final(c)@ == c2 && e == se,
                    _ => false,
                }
            }),
    {
        match c.try_resolve(&self.base) {
            Ok(Some(b)) => {
                let n = read_u16_le(&b, 8);
                if check_adaptor_list(&b, 32, n as usize) {
                    Ok(Some(QueryAdaptorsReply { bytes: b }))
                } else {
                    c.close();
                    Err(XError::Malformed)
                }
            },
            Ok(None) => Ok(None),
            Err(e) => Err(e),
        }
    }
}

/// Walks the declared encoding records and confirms that each lies inside
/// the buffer.
fn check_encoding_list(b: &Vec<u8>, off: usize, k: usize) -> (r: bool)
    requires
        off <= b@.len(),
    ensures
        r == encoding_list_wf(b@, off as int, k as nat),
{
    let ln = b.len();
    let mut cur: usize = off;
    let mut rem: usize = k;
    while rem > 0
        invariant
            ln == b@.len(),
            cur <= ln,
            encoding_list_wf(b@, off as int, k as nat) == encoding_list_wf(
                b@,
                cur as int,
                rem as nat,
            ),
        decreases rem,
    {
        proof {
            lemma_pad4_bounds(u16_at(b@, cur as int + 4) as int);
        }
        if ln - cur < 20 {
            return false;
        }
        let ns = read_u16_le(b, cur + 4) as usize;
        let padded = pad4_len(ns);
        let size64 = 20u64 + (padded as u64);
        if ((ln - cur) as u64) < size64 {
            return false;
        }
        cur = cur + (size64 as usize);
        rem = rem - 1;
    }
    true
}

/// The reply to an encoding query; owns its buffer.
#[derive(Debug)]
pub struct QueryEncodingsReply {
    pub bytes: Vec<u8>,
}

impl QueryEncodingsReply {
    /// Header present and every declared encoding record within bounds.
    pub open spec fn wf(self) -> bool {
        &&& self.bytes@.len() >= 32
        &&& encoding_list_wf(self.bytes@, 32, u16_at(self.bytes@, 8) as nat)
    }

    /// Number of packed encoding records.
    pub open spec fn spec_num_encodings(self) -> u16 {
        u16_at(self.bytes@, 8)
    }

    pub fn num_encodings(&self) -> (r: u16)
        requires
            self.wf(),
        ensures
            r == self.spec_num_encodings(),
    {
        read_u16_le(&self.bytes, 8)
    }

    /// A fresh iterator over the packed encoding records.
    pub fn info(&self) -> (it: EncodingInfoIterator)
        requires
            self.wf(),
        ensures
            it.wf_for(self.bytes@),
            it.off == 32,
            it.rem == self.spec_num_encodings(),
    {
        let n = read_u16_le(&self.bytes, 8);
        EncodingInfoIterator { off: 32, rem: n as usize }
    }
}

impl QueryEncodingsCookie {
    /// Redeems the cookie for the encoding reply once delivered. A reply
    /// whose declared records overrun the buffer is malformed, which is
    /// fatal: the connection closes.
    pub fn resolve(&self, c: &mut Connection) -> (r: Result<Option<QueryEncodingsReply>, XError>)
        requires
            old(c).wf(),
        ensures
            final(c).wf(),
            ({
                let (c2, rr) = old(c)@.spec_try_resolve(self.base);
                match (r, rr) {
                    (Ok(Some(rep)), Ok(Some(sb))) => final(c)@ == c2 && rep.bytes@ == sb
                        && rep.wf(),
                    (Ok(None), Ok(None)) => final(c)@ == c2,
                    (Err(XError::Malformed), Ok(Some(sb))) => !encoding_list_wf(
                        sb,
                        32,
                        u16_at(sb, 8) as nat,
                    ) && final(c)@ == c2.spec_close(),
                    (Err(e), Err(se)) => final(c)@ == c2 && e == se,
                    _ => false,
                }
            }),
    {
        match c.try_resolve(&self.base) {
            Ok(Some(b)) => {
                let n = read_u16_le(&b, 8);
                if check_encoding_list(&b, 32, n as usize) {
                    Ok(Some(QueryEncodingsReply { bytes: b }))
                } else {
                    c.close();
                    Err(XError::Malformed)
                }
            },
            Ok(None) => Ok(None),
            Err(e) => Err(e),
        }
    }
}

/// The reply to a port grab; owns its buffer.
#[derive(Debug)]
pub struct GrabPortReply {
    pub bytes: Vec<u8>,
}

impl GrabPortReply {
    /// The buffer holds at least the fixed reply header.
    pub open spec fn wf(self) -> bool {
        self.bytes@.len() >= 32
    }

    /// The grab outcome, one of the grab-port status codes.
    pub fn result(&self) -> (r: u8)
        requires
            self.wf(),
        ensures
            r == self.bytes@[1],
    {
        self.bytes[1]
    }
}

impl GrabPortCookie {
    /// Redeems the cookie for the grab reply once it has been delivered.
    pub fn resolve(&self, c: &mut Connection) -> (r: Result<Option<GrabPortReply>, XError>)
        requires
            old(c).wf(),
        ensures
            final(c).wf(),
            ({
                let (c2, rr) = old(c)@.spec_try_resolve(self.base);
                final(c)@ == c2 && match (r, rr) {
                    (Ok(Some(rep)), Ok(Some(sb))) => rep.bytes@ == sb && rep.wf(),
                    (Ok(None), Ok(None)) => true,
                    (Err(e), Err(se)) => e == se,
                    _ => false,
                }
            }),
    {
        match c.try_resolve(&self.base) {
            Ok(Some(b)) => Ok(Some(GrabPortReply { bytes: b })),
            Ok(None) => Ok(None),
            Err(e) => Err(e),
        }
    }
}

/// The reply to a best-size query; owns its buffer.
#[derive(Debug)]
pub struct QueryBestSizeReply {
    pub bytes: Vec<u8>,
}

impl QueryBestSizeReply {
    /// The buffer holds at least the fixed reply header.
    pub open spec fn wf(self) -> bool {
        self.bytes@.len() >= 32
    }

    pub fn actual_width(&self) -> (r: u16)
        requires
            self.wf(),
        ensures
            r == u16_at(self.bytes@, 8),
    {
        read_u16_le(&self.bytes, 8)
    }

    pub fn actual_height(&self) -> (r: u16)
        requires
            self.wf(),
        ensures
            r == u16_at(self.bytes@, 10),
    {
        read_u16_le(&self.bytes, 10)
    }
}

impl QueryBestSizeCookie {
    /// Redeems the cookie for the best-size reply once delivered.
    pub fn resolve(&self, c: &mut Connection) -> (r: Result<Option<QueryBestSizeReply>, XError>)
        requires
            old(c).wf(),
        ensures
            final(c).wf(),
            ({
                let (c2, rr) = old(c)@.spec_try_resolve(self.base);
                final(c)@ == c2 && match (r, rr) {
                    (Ok(Some(rep)), Ok(Some(sb))) => rep.bytes@ == sb && rep.wf(),
                    (Ok(None), Ok(None)) => true,
                    (Err(e), Err(se)) => e == se,
                    _ => false,
                }
            }),
    {
        match c.try_resolve(&self.base) {
            Ok(Some(b)) => Ok(Some(QueryBestSizeReply { bytes: b })),
            Ok(None) => Ok(None),
            Err(e) => Err(e),
        }
    }
}

/// The reply to an attribute query; owns its buffer.
#[derive(Debug)]
pub struct GetPortAttributeReply {
    pub bytes: Vec<u8>,
}

impl GetPortAttributeReply {
    /// The buffer holds at least the fixed reply header.
    pub open spec fn wf(self) -> bool {
        self.bytes@.len() >= 32
    }

    pub fn value(&self) -> (r: i32)
        requires
            self.wf(),
        ensures
            r == u32_as_i32(u32_at(self.bytes@, 8)),
    {
        u32_to_i32(read_u32_le(&self.bytes, 8))
    }
}

impl GetPortAttributeCookie {
    /// Redeems the cookie for the attribute reply once delivered.
    pub fn resolve(&self, c: &mut Connection) -> (r: Result<Option<GetPortAttributeReply>, XError>)
        requires
            old(c).wf(),
        ensures
            final(c).wf(),
            ({
                let (c2, rr) = old(c)@.spec_try_resolve(self.base);
                final(c)@ == c2 && match (r, rr) {
                    (Ok(Some(rep)), Ok(Some(sb))) => rep.bytes@ == sb && rep.wf(),
                    (Ok(None), Ok(None)) => true,
                    (Err(e), Err(se)) => e == se,
                    _ => false,
                }
            }),
    {
        match c.try_resolve(&self.base) {
            Ok(Some(b)) => Ok(Some(GetPortAttributeReply { bytes: b })),
            Ok(None) => Ok(None),
            Err(e) => Err(e),
        }
    }
}

/// Walks the declared attribute records and confirms that each lies inside
/// the buffer.
fn check_attribute_list(b: &Vec<u8>, off: usize, k: usize) -> (r: bool)
    requires
        off <= b@.len(),
    ensures
        r == attribute_list_wf(b@, off as int, k as nat),
{
    let ln = b.len();
    let mut cur: usize = off;
    let mut rem: usize = k;
    while rem > 0
        invariant
            ln == b@.len(),
            cur <= ln,
            attribute_list_wf(b@, off as int, k as nat) == attribute_list_wf(
                b@,
                cur as int,
                rem as nat,
            ),
        decreases rem,
    {
        proof {
            lemma_pad4_bounds(u32_at(b@, cur as int + 12) as int);
        }
        if ln - cur < 16 {
            return false;
        }
        let ns = read_u32_le(b, cur + 12) as u64;
        let padded = ((ns + 3) / 4) * 4;
        let size64 = 16u64 + padded;
        if ((ln - cur) as u64) < size64 {
            return false;
        }
        cur = cur + (size64 as usize);
        rem = rem - 1;
    }
    true
}

/// The reply to a port attribute listing; owns its buffer.
#[derive(Debug)]
pub struct QueryPortAttributesReply {
    pub bytes: Vec<u8>,
}

impl QueryPortAttributesReply {
    /// Header present and every declared attribute record within bounds.
    pub open spec fn wf(self) -> bool {
        &&& self.bytes@.len() >= 32
        &&& attribute_list_wf(self.bytes@, 32, u32_at(self.bytes@, 8) as nat)
    }

    /// Number of packed attribute records.
    pub open spec fn spec_num_attributes(self) -> u32 {
        u32_at(self.bytes@, 8)
    }

    pub fn num_attributes(&self) -> (r: u32)
        requires
            self.wf(),
        ensures
            r == self.spec_num_attributes(),
    {
        read_u32_le(&self.bytes, 8)
    }

    /// Combined length of all attribute names, as the server reported it.
    pub fn text_size(&self) -> (r: u32)
        requires
            self.wf(),
        ensures
            r == u32_at(self.bytes@, 12),
    {
        read_u32_le(&self.bytes, 12)
    }

    /// A fresh iterator over the packed attribute records.
    pub fn attributes(&self) -> (it: AttributeInfoIterator)
        requires
            self.wf(),
        ensures
            it.wf_for(self.bytes@),
            it.off == 32,
            it.rem == self.spec_num_attributes(),
    {
        let ln = self.bytes.len();
        let n = read_u32_le(&self.bytes, 8);
        AttributeInfoIterator { off: 32, rem: n as usize }
    }
}

impl QueryPortAttributesCookie {
    /// Redeems the cookie for the attribute listing once delivered. A reply
    /// whose declared records overrun the buffer is malformed, which is
    /// fatal: the connection closes.
    pub fn resolve(&self, c: &mut Connection) -> (r: Result<
        Option<QueryPortAttributesReply>,
        XError,
    >)
        requires
            old(c).wf(),
        ensures
            final(c).wf(),
            ({
                let (c2, rr) = old(c)@.spec_try_resolve(self.base);
                match (r, rr) {
                    (Ok(Some(rep)), Ok(Some(sb))) => final(c)@ == c2 && rep.bytes@ == sb
                        && rep.wf(),
                    (Ok(None), Ok(None)) => final(c)@ == c2,
                    (Err(XError::Malformed), Ok(Some(sb))) => !attribute_list_wf(
                        sb,
                        32,
                        u32_at(sb, 8) as nat,
                    ) && final(c)@ == c2.spec_close(),
                    (Err(e), Err(se)) => final(c)@ == c2 && e == se,
                    _ => false,
                }
            }),
    {
        match c.try_resolve(&self.base) {
            Ok(Some(b)) => {
                let n = read_u32_le(&b, 8);
                if check_attribute_list(&b, 32, n as usize) {
                    Ok(Some(QueryPortAttributesReply { bytes: b }))
                } else {
                    c.close();
                    Err(XError::Malformed)
                }
            },
            Ok(None) => Ok(None),
            Err(e) => Err(e),
        }
    }
}

/// The packed image-format records declared by the count field all lie
/// inside the buffer.
pub open spec fn image_formats_reply_valid(s: Seq<u8>) -> bool {
    32 + IMAGE_FORMAT_INFO_SIZE * (u32_at(s, 8) as int) <= s.len()
}

/// The reply to an image format listing; owns its buffer.
#[derive(Debug)]
pub struct ListImageFormatsReply {
    pub bytes: Vec<u8>,
}

impl ListImageFormatsReply {
    /// Header present and the declared record list within bounds.
    pub open spec fn wf(self) -> bool {
        &&& self.bytes@.len() >= 32
        &&& image_formats_reply_valid(self.bytes@)
    }

    /// Number of packed image-format records.
    pub open spec fn spec_num_formats(self) -> u32 {
        u32_at(self.bytes@, 8)
    }

    pub fn num_formats(&self) -> (r: u32)
        requires
            self.wf(),
        ensures
            r == self.spec_num_formats(),
    {
        read_u32_le(&self.bytes, 8)
    }

    /// A fresh iterator over the packed image-format records.
    pub fn format(&self) -> (it: ImageFormatInfoIterator)
        requires
            self.wf(),
        ensures
            it.wf_for(self.bytes@),
            it.cur.off == 32,
            it.cur.rem == self.spec_num_formats(),
            it.cur.limit == 32 + IMAGE_FORMAT_INFO_SIZE * it.cur.rem,
    {
        let ln = self.bytes.len();
        let cnt = read_u32_le(&self.bytes, 8) as usize;
        let limit = 32 + IMAGE_FORMAT_INFO_SIZE * cnt;
        ImageFormatInfoIterator {
            cur: FixedCursor::new(32, cnt, IMAGE_FORMAT_INFO_SIZE, limit),
        }
    }
}

impl ListImageFormatsCookie {
    /// Redeems the cookie for the format listing once delivered. A reply
    /// whose declared record count overruns the buffer is malformed, which
    /// is fatal: the connection closes.
    pub fn resolve(&self, c: &mut Connection) -> (r: Result<Option<ListImageFormatsReply>, XError>)
        requires
            old(c).wf(),
        ensures
            final(c).wf(),
            ({
                let (c2, rr) = old(c)@.spec_try_resolve(self.base);
                match (r, rr) {
                    (Ok(Some(rep)), Ok(Some(sb))) => final(c)@ == c2 && rep.bytes@ == sb
                        && rep.wf(),
                    (Ok(None), Ok(None)) => final(c)@ == c2,
                    (Err(XError::Malformed), Ok(Some(sb))) => !image_formats_reply_valid(sb)
                        && final(c)@ == c2.spec_close(),
                    (Err(e), Err(se)) => final(c)@ == c2 && e == se,
                    _ => false,
                }
            }),
    {
        match c.try_resolve(&self.base) {
            Ok(Some(b)) => {
                let cnt = read_u32_le(&b, 8) as u64;
                if 32 + (IMAGE_FORMAT_INFO_SIZE as u64) * cnt <= b.len() as u64 {
                    Ok(Some(ListImageFormatsReply { bytes: b }))
                } else {
                    c.close();
                    Err(XError::Malformed)
                }
            },
            Ok(None) => Ok(None),
            Err(e) => Err(e),
        }
    }
}

/// The per-plane pitch and offset tables declared by the plane count all lie
/// inside the buffer.
pub open spec fn image_attributes_reply_valid(s: Seq<u8>) -> bool {
    32 + 8 * (u32_at(s, 8) as int) <= s.len()
}

/// The reply to an image attribute query; owns its buffer.
#[derive(Debug)]
pub struct QueryImageAttributesReply {
    pub bytes: Vec<u8>,
}

impl QueryImageAttributesReply {
    /// Header present and the declared plane tables within bounds.
    pub open spec fn wf(self) -> bool {
        &&& self.bytes@.len() >= 32
        &&& image_attributes_reply_valid(self.bytes@)
    }

    /// Number of image planes.
    pub open spec fn spec_num_planes(self) -> u32 {
        u32_at(self.bytes@, 8)
    }

    pub fn num_planes(&self) -> (r: u32)
        requires
            self.wf(),
        ensures
            r == self.spec_num_planes(),
    {
        read_u32_le(&self.bytes, 8)
    }

    pub fn data_size(&self) -> (r: u32)
        requires
            self.wf(),
        ensures
            r == u32_at(self.bytes@, 12),
    {
        read_u32_le(&self.bytes, 12)
    }

    pub fn width(&self) -> (r: u16)
        requires
            self.wf(),
        ensures
            r == u16_at(self.bytes@, 16),
    {
        read_u16_le(&self.bytes, 16)
    }

    pub fn height(&self) -> (r: u16)
        requires
            self.wf(),
        ensures
            r == u16_at(self.bytes@, 18),
    {
        read_u16_le(&self.bytes, 18)
    }

    /// The per-plane pitch table, extracted by the plane count.
    pub fn pitches(&self) -> (r: Vec<u32>)
        requires
            self.wf(),
        ensures
            r@ == u32_list_at(self.bytes@, 32, self.spec_num_planes() as int),
    {
        let ln = self.bytes.len();
        let np = read_u32_le(&self.bytes, 8) as usize;
        read_u32_list(&self.bytes, 32, np)
    }

    /// The per-plane offset table, following the pitch table.
    pub fn offsets(&self) -> (r: Vec<u32>)
        requires
            self.wf(),
        ensures
            r@ == u32_list_at(
                self.bytes@,
                32 + 4 * self.spec_num_planes() as int,
                self.spec_num_planes() as int,
            ),
    {
        let ln = self.bytes.len();
        let np = read_u32_le(&self.bytes, 8) as usize;
        read_u32_list(&self.bytes, 32 + 4 * np, np)
    }
}

impl QueryImageAttributesCookie {
    /// Redeems the cookie for the image attribute reply once delivered. A
    /// reply whose declared plane tables overrun the buffer is malformed,
    /// which is fatal: the connection closes.
    pub fn resolve(&self, c: &mut Connection) -> (r: Result<
        Option<QueryImageAttributesReply>,
        XError,
    >)
        requires
            old(c).wf(),
        ensures
            final(c).wf(),
            ({
                let (c2, rr) = old(c)@.spec_try_resolve(self.base);
                match (r, rr) {
                    (Ok(Some(rep)), Ok(Some(sb))) => final(c)@ == c2 && rep.bytes@ == sb
                        && rep.wf(),
                    (Ok(None), Ok(None)) => final(c)@ == c2,
                    (Err(XError::Malformed), Ok(Some(sb))) => !image_attributes_reply_valid(sb)
                        && final(c)@ == c2.spec_close(),
                    (Err(e), Err(se)) => final(c)@ == c2 && e == se,
                    _ => false,
                }
            }),
    {
        match c.try_resolve(&self.base) {
            Ok(Some(b)) => {
                let np = read_u32_le(&b, 8) as u64;
                if 32 + 8u64 * np <= b.len() as u64 {
                    Ok(Some(QueryImageAttributesReply { bytes: b }))
                } else {
                    c.close();
                    Err(XError::Malformed)
                }
            },
            Ok(None) => Ok(None),
            Err(e) => Err(e),
        }
    }
}

/// The video-notify event, as typed fields.
#[derive(Clone, Copy, PartialEq, Eq, Structural, Debug)]
pub struct VideoNotifyEvent {
    pub reason: u8,
    pub time: xproto::Timestamp,
    pub drawable: xproto::Drawable,
    pub port: Port,
}

/// The port-notify event, as typed fields.
#[derive(Clone, Copy, PartialEq, Eq, Structural, Debug)]
pub struct PortNotifyEvent {
    pub time: xproto::Timestamp,
    pub port: Port,
    pub attribute: xproto::Atom,
    pub value: i32,
}

/// An event of this extension, keyed by its extension-relative code.
#[derive(Clone, Copy, PartialEq, Eq, Structural, Debug)]
pub enum XvEvent {
    VideoNotify(VideoNotifyEvent),
    PortNotify(PortNotifyEvent),
}

/// The 32-byte wire form of a video-notify event under a negotiated event
/// base, zero-filled past its fields.
pub open spec fn video_notify_bytes(e: VideoNotifyEvent, first_event: u8, wire_seq: u16) -> Seq<
    u8,
> {
    seq![first_event, e.reason] + u16_le(wire_seq) + u32_le(e.time) + u32_le(e.drawable) + u32_le(
        e.port,
    ) + Seq::new(16, |i: int| 0u8)
}

/// The 32-byte wire form of a port-notify event under a negotiated event
/// base, zero-filled past its fields.
pub open spec fn port_notify_bytes(e: PortNotifyEvent, first_event: u8, wire_seq: u16) -> Seq<u8> {
    seq![(first_event + XCB_XV_PORT_NOTIFY) as u8, 0u8] + u16_le(wire_seq) + u32_le(e.time)
        + u32_le(e.port) + u32_le(e.attribute) + u32_le(i32_as_u32(e.value)) + Seq::new(
        12,
        |i: int| 0u8,
    )
}

/// The typed view of a 32-byte event buffer, keyed by its code relative to
/// the negotiated event base (the send-event flag bit is ignored).
pub open spec fn spec_decode_event(s: Seq<u8>, first_event: u8) -> Option<XvEvent> {
    if s.len() != 32 {
        None
    } else {
        let code = s[0] & 0x7f;
        if code == first_event {
            Some(
                XvEvent::VideoNotify(
                    VideoNotifyEvent {
                        reason: s[1],
                        time: u32_at(s, 4),
                        drawable: u32_at(s, 8),
                        port: u32_at(s, 12),
                    },
                ),
            )
        } else if code as int == first_event as int + XCB_XV_PORT_NOTIFY as int {
            Some(
                XvEvent::PortNotify(
                    PortNotifyEvent {
                        time: u32_at(s, 4),
                        port: u32_at(s, 8),
                        attribute: u32_at(s, 12),
                        value: u32_as_i32(u32_at(s, 16)),
                    },
                ),
            )
        } else {
            None
        }
    }
}

/// Dispatches a 32-byte event buffer to its typed view by the opcode
/// recovered from the extension's negotiated event base.
pub fn decode_event(buf: &Vec<u8>, first_event: u8) -> (r: Option<XvEvent>)
    ensures
        r == spec_decode_event(buf@, first_event),
{
    if buf.len() != 32 {
        return None;
    }
    let code = buf[0] & 0x7f;
    if code == first_event {
        Some(
            XvEvent::VideoNotify(
                VideoNotifyEvent {
                    reason: buf[1],
                    time: read_u32_le(buf, 4),
                    drawable: read_u32_le(buf, 8),
                    port: read_u32_le(buf, 12),
                },
            ),
        )
    } else if (code as u16) == (first_event as u16) + (XCB_XV_PORT_NOTIFY as u16) {
        Some(
            XvEvent::PortNotify(
                PortNotifyEvent {
                    time: read_u32_le(buf, 4),
                    port: read_u32_le(buf, 8),
                    attribute: read_u32_le(buf, 12),
                    value: u32_to_i32(read_u32_le(buf, 16)),
                },
            ),
        )
    } else {
        None
    }
}

impl VideoNotifyEvent {
    /// Synthesizes the event from typed fields.
    pub fn new(
        reason: u8,
        time: xproto::Timestamp,
        drawable: xproto::Drawable,
        port: Port,
    ) -> (r: VideoNotifyEvent)
        ensures
            r == (VideoNotifyEvent { reason, time, drawable, port }),
    {
        VideoNotifyEvent { reason, time, drawable, port }
    }

    pub fn reason(&self) -> (r: u8)
        ensures
            r == self.reason,
    {
        self.reason
    }

    pub fn time(&self) -> (r: xproto::Timestamp)
        ensures
            r == self.time,
    {
        self.time
    }

    pub fn drawable(&self) -> (r: xproto::Drawable)
        ensures
            r == self.drawable,
    {
        self.drawable
    }

    pub fn port(&self) -> (r: Port)
        ensures
            r == self.port,
    {
        self.port
    }

    /// Serializes the event to its 32-byte wire buffer under the extension's
    /// negotiated event base, zero-filling the unused trailing bytes.
    pub fn serialize(&self, first_event: u8, wire_seq: u16) -> (r: Vec<u8>)
        ensures
            r@ == video_notify_bytes(*self, first_event, wire_seq),
            r@.len() == 32,
    {
        let mut out: Vec<u8> = Vec::new();
        out.push(first_event);
        out.push(self.reason);
        push_u16_le(&mut out, wire_seq);
        push_u32_le(&mut out, self.time);
        push_u32_le(&mut out, self.drawable);
        push_u32_le(&mut out, self.port);
        push_zeros(&mut out, 16);
        proof {
            assert(out@ =~= video_notify_bytes(*self, first_event, wire_seq));
        }
        out
    }
}

impl PortNotifyEvent {
    /// Synthesizes the event from typed fields.
    pub fn new(time: xproto::Timestamp, port: Port, attribute: xproto::Atom, value: i32) -> (r:
        PortNotifyEvent)
        ensures
            r == (PortNotifyEvent { time, port, attribute, value }),
    {
        PortNotifyEvent { time, port, attribute, value }
    }

    pub fn time(&self) -> (r: xproto::Timestamp)
        ensures
            r == self.time,
    {
        self.time
    }

    pub fn port(&self) -> (r: Port)
        ensures
            r == self.port,
    {
        self.port
    }

    pub fn attribute(&self) -> (r: xproto::Atom)
        ensures
            r == self.attribute,
    {
        self.attribute
    }

    pub fn value(&self) -> (r: i32)
        ensures
            r == self.value,
    {
        self.value
    }

    /// Serializes the event to its 32-byte wire buffer under the extension's
    /// negotiated event base, zero-filling the unused trailing bytes.
    pub fn serialize(&self, first_event: u8, wire_seq: u16) -> (r: Vec<u8>)
        requires
            first_event + XCB_XV_PORT_NOTIFY <= 255,
        ensures
            r@ == port_notify_bytes(*self, first_event, wire_seq),
            r@.len() == 32,
    {
        let mut out: Vec<u8> = Vec::new();
        out.push(first_event + XCB_XV_PORT_NOTIFY);
        out.push(0u8);
        push_u16_le(&mut out, wire_seq);
        push_u32_le(&mut out, self.time);
        push_u32_le(&mut out, self.port);
        push_u32_le(&mut out, self.attribute);
        push_u32_le(&mut out, i32_to_u32(self.value));
        push_zeros(&mut out, 12);
        proof {
            assert(out@ =~= port_notify_bytes(*self, first_event, wire_seq));
        }
        out
    }
}

/// Law: round trip — a video-notify event synthesized from typed fields and
/// serialized, then decoded through the event decoder under the same event
/// base, yields exactly those fields.
pub proof fn lemma_video_notify_roundtrip(e: VideoNotifyEvent, first_event: u8, wire_seq: u16)
    requires
        first_event <= 0x7f,
    ensures
        spec_decode_event(video_notify_bytes(e, first_event, wire_seq), first_event) == Some(
            XvEvent::VideoNotify(e),
        ),
{
    let s = video_notify_bytes(e, first_event, wire_seq);
    assert(s.len() == 32);
    assert(s[0] == first_event);
    assert(first_event & 0x7f == first_event) by (bit_vector)
        requires
            first_event <= 0x7f,
    ;
    crate::wire::lemma_u32_le_from(e.time);
    assert(u32_at(s, 4) == e.time);
    crate::wire::lemma_u32_le_from(e.drawable);
    assert(u32_at(s, 8) == e.drawable);
    crate::wire::lemma_u32_le_from(e.port);
    assert(u32_at(s, 12) == e.port);
}

/// Law: round trip — a port-notify event synthesized, serialized and decoded
/// under the same event base yields exactly its fields.
pub proof fn lemma_port_notify_roundtrip(e: PortNotifyEvent, first_event: u8, wire_seq: u16)
    requires
        first_event + XCB_XV_PORT_NOTIFY <= 0x7f,
    ensures
        spec_decode_event(port_notify_bytes(e, first_event, wire_seq), first_event) == Some(
            XvEvent::PortNotify(e),
        ),
{
    let s = port_notify_bytes(e, first_event, wire_seq);
    assert(s.len() == 32);
    let code = (first_event + XCB_XV_PORT_NOTIFY) as u8;
    assert(s[0] == code);
    assert(code & 0x7f == code && code != first_event) by (bit_vector)
        requires
            code == first_event + 1,
            first_event + 1 <= 0x7f,
    ;
    crate::wire::lemma_u32_le_from(e.time);
    assert(u32_at(s, 4) == e.time);
    crate::wire::lemma_u32_le_from(e.port);
    assert(u32_at(s, 8) == e.port);
    crate::wire::lemma_u32_le_from(e.attribute);
    assert(u32_at(s, 12) == e.attribute);
    crate::wire::lemma_u32_le_from(i32_as_u32(e.value));
    assert(u32_at(s, 16) == i32_as_u32(e.value));
    crate::wire::lemma_i32_roundtrip(e.value);
}

/// A protocol error carrying the extension's bad-port code.
#[derive(Clone, Copy, PartialEq, Eq, Structural, Debug)]
pub struct BadPortError {
    pub base: ProtocolError,
}

/// A protocol error carrying the extension's bad-encoding code.
#[derive(Clone, Copy, PartialEq, Eq, Structural, Debug)]
pub struct BadEncodingError {
    pub base: ProtocolError,
}

/// A protocol error carrying the extension's bad-control code.
#[derive(Clone, Copy, PartialEq, Eq, Structural, Debug)]
pub struct BadControlError {
    pub base: ProtocolError,
}

/// An error of this extension, keyed by its code relative to the negotiated
/// error base.
#[derive(Clone, Copy, PartialEq, Eq, Structural, Debug)]
pub enum XvError {
    BadPort(BadPortError),
    BadEncoding(BadEncodingError),
    BadControl(BadControlError),
}

/// The typed view of a protocol error whose code falls in this extension's
/// negotiated error range.
pub open spec fn spec_decode_error(e: ProtocolError, first_error: u8) -> Option<XvError> {
    if e.error_code as int == first_error as int + XCB_XV_BAD_PORT as int {
        Some(XvError::BadPort(BadPortError { base: e }))
    } else if e.error_code as int == first_error as int + XCB_XV_BAD_ENCODING as int {
        Some(XvError::BadEncoding(BadEncodingError { base: e }))
    } else if e.error_code as int == first_error as int + XCB_XV_BAD_CONTROL as int {
        Some(XvError::BadControl(BadControlError { base: e }))
    } else {
        None
    }
}

/// Classifies a protocol error by the code recovered from the extension's
/// negotiated error base.
pub fn decode_error(e: &ProtocolError, first_error: u8) -> (r: Option<XvError>)
    ensures
        r == spec_decode_error(*e, first_error),
{
    let code = e.error_code as u16;
    if code == (first_error as u16) + (XCB_XV_BAD_PORT as u16) {
        Some(XvError::BadPort(BadPortError { base: *e }))
    } else if code == (first_error as u16) + (XCB_XV_BAD_ENCODING as u16) {
        Some(XvError::BadEncoding(BadEncodingError { base: *e }))
    } else if code == (first_error as u16) + (XCB_XV_BAD_CONTROL as u16) {
        Some(XvError::BadControl(BadControlError { base: *e }))
    } else {
        None
    }
}

} // verus!
