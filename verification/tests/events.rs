use xwire::dri2::{BufferSwapCompleteEvent, Dri2Event, InvalidateBuffersEvent};
use xwire::error::ProtocolError;
use xwire::xv::{PortNotifyEvent, VideoNotifyEvent, XvError, XvEvent};

#[test]
fn swap_complete_event_roundtrip() {
    let e = BufferSwapCompleteEvent::new(3, 42, 1, 2, 0x1234, 0x9abcdef0, 77);
    let buf = e.serialize(60, 0);
    assert_eq!(buf.len(), 32);
    match xwire::dri2::decode_event(&buf, 60) {
        Some(Dri2Event::BufferSwapComplete(d)) => {
            assert_eq!(d.event_type(), 3);
            assert_eq!(d.drawable(), 42);
            assert_eq!(d.ust_hi(), 1);
            assert_eq!(d.ust_lo(), 2);
            assert_eq!(d.msc_hi(), 0x1234);
            assert_eq!(d.msc_lo(), 0x9abcdef0);
            assert_eq!(d.sbc(), 77);
        },
        other => panic!("wrong decoding: {:?}", other),
    }
}

#[test]
fn invalidate_buffers_event_roundtrip() {
    let e = InvalidateBuffersEvent::new(0xdeadbeef);
    let buf = e.serialize(60, 5);
    assert_eq!(buf.len(), 32);
    match xwire::dri2::decode_event(&buf, 60) {
        Some(Dri2Event::InvalidateBuffers(d)) => assert_eq!(d.drawable(), 0xdeadbeef),
        other => panic!("wrong decoding: {:?}", other),
    }
}

#[test]
fn video_notify_event_roundtrip() {
    let e = VideoNotifyEvent::new(
        xwire::xv::XCB_XV_VIDEO_NOTIFY_REASON_BUSY as u8,
        1000,
        42,
        9,
    );
    let buf = e.serialize(76, 0);
    assert_eq!(buf.len(), 32);
    match xwire::xv::decode_event(&buf, 76) {
        Some(XvEvent::VideoNotify(d)) => {
            assert_eq!(d.reason(), 3);
            assert_eq!(d.time(), 1000);
            assert_eq!(d.drawable(), 42);
            assert_eq!(d.port(), 9);
        },
        other => panic!("wrong decoding: {:?}", other),
    }
}

#[test]
fn port_notify_event_roundtrip() {
    let e = PortNotifyEvent::new(2000, 9, 31, -5);
    let buf = e.serialize(76, 0);
    assert_eq!(buf.len(), 32);
    match xwire::xv::decode_event(&buf, 76) {
        Some(XvEvent::PortNotify(d)) => {
            assert_eq!(d.time(), 2000);
            assert_eq!(d.port(), 9);
            assert_eq!(d.attribute(), 31);
            assert_eq!(d.value(), -5);
        },
        other => panic!("wrong decoding: {:?}", other),
    }
}

#[test]
fn event_decoder_rejects_foreign_code() {
    let e = InvalidateBuffersEvent::new(1);
    let buf = e.serialize(60, 0);
    // decoded against a different event base, the code falls outside the
    // extension's range
    assert!(xwire::dri2::decode_event(&buf, 50).is_none());
    assert!(xwire::dri2::decode_event(&buf, 62).is_none());
}

#[test]
fn event_decoder_rejects_wrong_size() {
    let e = InvalidateBuffersEvent::new(1);
    let mut buf = e.serialize(60, 0);
    buf.push(0);
    assert!(xwire::dri2::decode_event(&buf, 60).is_none());
}

#[test]
fn send_event_flag_is_masked() {
    let e = BufferSwapCompleteEvent::new(1, 2, 3, 4, 5, 6, 7);
    let mut buf = e.serialize(60, 0);
    buf[0] |= 0x80;
    match xwire::dri2::decode_event(&buf, 60) {
        Some(Dri2Event::BufferSwapComplete(d)) => assert_eq!(d.sbc(), 7),
        other => panic!("wrong decoding: {:?}", other),
    }
}

#[test]
fn xv_error_classification() {
    let mut pe = ProtocolError {
        error_code: 71,
        sequence: 4,
        bad_value: 9,
        minor_opcode: 3,
        major_opcode: 155,
    };
    match xwire::xv::decode_error(&pe, 70) {
        Some(XvError::BadEncoding(e)) => assert_eq!(e.base.bad_value, 9),
        other => panic!("wrong classification: {:?}", other),
    }
    pe.error_code = 70;
    assert!(matches!(
        xwire::xv::decode_error(&pe, 70),
        Some(XvError::BadPort(_))
    ));
    pe.error_code = 72;
    assert!(matches!(
        xwire::xv::decode_error(&pe, 70),
        Some(XvError::BadControl(_))
    ));
    pe.error_code = 9;
    assert!(xwire::xv::decode_error(&pe, 70).is_none());
}

#[test]
fn wire_words_roundtrip() {
    let mut b: Vec<u8> = Vec::new();
    xwire::wire::push_u32_le(&mut b, 0xdeadbeef);
    xwire::wire::push_u16_le(&mut b, 0x1234);
    assert_eq!(b, vec![0xef, 0xbe, 0xad, 0xde, 0x34, 0x12]);
    assert_eq!(xwire::wire::read_u32_le(&b, 0), 0xdeadbeef);
    assert_eq!(xwire::wire::read_u16_le(&b, 4), 0x1234);
}

#[test]
fn pad4_rounds_up_to_boundary() {
    assert_eq!(xwire::wire::pad4_len(0), 0);
    assert_eq!(xwire::wire::pad4_len(1), 4);
    assert_eq!(xwire::wire::pad4_len(4), 4);
    assert_eq!(xwire::wire::pad4_len(5), 8);
    assert_eq!(xwire::wire::pad4_len(13), 16);
}

#[test]
fn signed_fields_use_twos_complement() {
    assert_eq!(xwire::wire::i16_to_u16(-1), 0xffff);
    assert_eq!(xwire::wire::i16_to_u16(-32768), 0x8000);
    assert_eq!(xwire::wire::i16_to_u16(5), 5);
    assert_eq!(xwire::wire::u16_to_i16(0xffff), -1);
    assert_eq!(xwire::wire::u16_to_i16(0x8000), -32768);
    assert_eq!(xwire::wire::i32_to_u32(-1), 0xffff_ffff);
    assert_eq!(xwire::wire::u32_to_i32(0xffff_ffff), -1);
}
