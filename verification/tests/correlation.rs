use xwire::connection::{Connection, Delivered, ExtensionInfo};
use xwire::error::{ProtocolError, XError, BAD_DRAWABLE, BAD_VALUE};

fn reply32(seq16: u16) -> Vec<u8> {
    let mut b = vec![0u8; 32];
    b[0] = 1;
    b[2] = (seq16 & 0xff) as u8;
    b[3] = (seq16 >> 8) as u8;
    b
}

fn error32(code: u8, seq16: u16) -> Vec<u8> {
    let mut b = vec![0u8; 32];
    b[1] = code;
    b[2] = (seq16 & 0xff) as u8;
    b[3] = (seq16 >> 8) as u8;
    b
}

fn prime_dri2(c: &mut Connection) -> ExtensionInfo {
    let name = xwire::dri2::name();
    assert!(matches!(c.resolve_extension(&name), Ok(None)));
    let query = c.next_outgoing().expect("query request queued");
    assert_eq!(query[0], 98);
    let mut rep = reply32(1);
    rep[8] = 1;
    rep[9] = 155;
    rep[10] = 60;
    rep[11] = 70;
    assert!(matches!(c.deliver(rep), Ok(Delivered::ReplyFiled { seq: 1 })));
    match c.resolve_extension(&name) {
        Ok(Some(i)) => i,
        other => panic!("extension should be resolved, got {:?}", other),
    }
}

#[test]
fn sequence_numbers_increase_and_embed() {
    let mut c = Connection::new(7);
    prime_dri2(&mut c);
    let ck1 = xwire::dri2::GetMsc(&mut c, 42).unwrap();
    let ck2 = xwire::dri2::GetMsc(&mut c, 42).unwrap();
    let ck3 = xwire::dri2::QueryVersion(&mut c, 1, 4).unwrap();
    assert_eq!(ck1.base.sequence, 2);
    assert_eq!(ck2.base.sequence, 3);
    assert_eq!(ck3.base.sequence, 4);
    assert!(ck1.base.sequence < ck2.base.sequence);
    assert!(ck2.base.sequence < ck3.base.sequence);
}

#[test]
fn cookie_resolves_exactly_once() {
    let mut c = Connection::new(7);
    prime_dri2(&mut c);
    let ck = xwire::dri2::GetMsc(&mut c, 42).unwrap();
    assert_eq!(ck.base.sequence, 2);
    let mut rep = reply32(2);
    rep[8] = 11;
    assert!(matches!(c.deliver(rep), Ok(Delivered::ReplyFiled { seq: 2 })));
    let first = ck.resolve(&mut c);
    match first {
        Ok(Some(r)) => assert_eq!(r.ust_hi(), 11),
        other => panic!("first resolution should deliver the reply, got {:?}", other),
    }
    let second = ck.resolve(&mut c);
    assert!(matches!(second, Err(XError::StaleCookie)));
}

#[test]
fn error_buffer_surfaces_protocol_error() {
    let mut c = Connection::new(7);
    prime_dri2(&mut c);
    let ck = xwire::dri2::GetMsc(&mut c, 42).unwrap();
    assert!(matches!(
        c.deliver(error32(BAD_DRAWABLE, 2)),
        Ok(Delivered::ErrorFiled { seq: 2 })
    ));
    match ck.resolve(&mut c) {
        Err(XError::Protocol(pe)) => {
            assert_eq!(pe.error_code, BAD_DRAWABLE);
            assert_eq!(pe.sequence, 2);
        },
        other => panic!("a protocol error was owed, got {:?}", other),
    }
    assert!(matches!(ck.resolve(&mut c), Err(XError::StaleCookie)));
}

#[test]
fn unchecked_error_goes_out_of_band() {
    let mut c = Connection::new(7);
    prime_dri2(&mut c);
    let ck = xwire::dri2::GetMscUnchecked(&mut c, 42).unwrap();
    assert!(matches!(
        c.deliver(error32(BAD_DRAWABLE, 2)),
        Ok(Delivered::OutOfBandError)
    ));
    let ev = c.poll_event().expect("error queued out of band");
    assert_eq!(ev[0], 0);
    assert_eq!(ev[1], BAD_DRAWABLE);
    assert!(matches!(ck.resolve(&mut c), Err(XError::StaleCookie)));
}

#[test]
fn resolve_after_close_is_transport_error() {
    let mut c = Connection::new(7);
    prime_dri2(&mut c);
    let ck = xwire::dri2::GetMsc(&mut c, 42).unwrap();
    c.close();
    assert!(matches!(ck.resolve(&mut c), Err(XError::Transport)));
    assert!(matches!(
        xwire::dri2::GetMsc(&mut c, 42),
        Err(XError::Transport)
    ));
}

#[test]
fn malformed_buffer_is_fatal() {
    let mut c = Connection::new(7);
    prime_dri2(&mut c);
    let short = vec![1u8; 10];
    assert!(matches!(c.deliver(short), Err(XError::Malformed)));
    assert!(matches!(
        xwire::dri2::GetMsc(&mut c, 42),
        Err(XError::Transport)
    ));
}

#[test]
fn inconsistent_declared_length_is_malformed() {
    let mut c = Connection::new(7);
    prime_dri2(&mut c);
    let _ck = xwire::dri2::GetMsc(&mut c, 42).unwrap();
    let mut rep = reply32(2);
    rep[4] = 3;
    assert!(matches!(c.deliver(rep), Err(XError::Malformed)));
}

#[test]
fn replies_correlate_by_wire_sequence() {
    let mut c = Connection::new(7);
    prime_dri2(&mut c);
    let ck2 = xwire::dri2::GetMsc(&mut c, 42).unwrap();
    let ck3 = xwire::dri2::GetMsc(&mut c, 43).unwrap();
    let mut rep = reply32(3);
    rep[8] = 33;
    assert!(matches!(c.deliver(rep), Ok(Delivered::ReplyFiled { seq: 3 })));
    assert!(matches!(ck2.resolve(&mut c), Ok(None)));
    match ck3.resolve(&mut c) {
        Ok(Some(r)) => assert_eq!(r.ust_hi(), 33),
        other => panic!("the second request's reply was filed, got {:?}", other),
    }
}

#[test]
fn wire_sequence_correlates_modulo_wraparound() {
    let mut c = Connection::new(8);
    prime_dri2(&mut c);
    let ck2 = xwire::dri2::GetMsc(&mut c, 42).unwrap();
    assert_eq!(ck2.base.sequence, 2);
    let mut k: usize = 0;
    while k < 65535 {
        xwire::dri2::GetMsc(&mut c, 42).unwrap();
        k += 1;
    }
    let ck3 = xwire::dri2::GetMsc(&mut c, 42).unwrap();
    // the full sequence number is past 2^16; its wire form collides with the
    // oldest pending request
    assert_eq!(ck3.base.sequence, 65538);
    let mut rep1 = reply32(2);
    rep1[8] = 1;
    assert!(matches!(c.deliver(rep1), Ok(Delivered::ReplyFiled { seq: 2 })));
    match ck2.resolve(&mut c) {
        Ok(Some(r)) => assert_eq!(r.ust_hi(), 1),
        other => panic!("oldest matching request owns the buffer, got {:?}", other),
    }
    let mut rep2 = reply32(2);
    rep2[8] = 2;
    assert!(matches!(
        c.deliver(rep2),
        Ok(Delivered::ReplyFiled { seq: 65538 })
    ));
    match ck3.resolve(&mut c) {
        Ok(Some(r)) => assert_eq!(r.ust_hi(), 2),
        other => panic!("the wrapped request owns the second buffer, got {:?}", other),
    }
}

#[test]
fn cookie_from_another_connection_is_stale() {
    let mut c1 = Connection::new(1);
    let mut c2 = Connection::new(2);
    prime_dri2(&mut c1);
    prime_dri2(&mut c2);
    let ck = xwire::dri2::GetMsc(&mut c1, 42).unwrap();
    assert!(matches!(ck.resolve(&mut c2), Err(XError::StaleCookie)));
}

#[test]
fn extension_resolution_is_idempotent() {
    let mut c = Connection::new(7);
    let info = prime_dri2(&mut c);
    assert_eq!(info.major_opcode, 155);
    assert_eq!(info.first_event, 60);
    assert_eq!(info.first_error, 70);
    let name = xwire::dri2::name();
    let again = c.resolve_extension(&name).unwrap().unwrap();
    let third = c.resolve_extension(&name).unwrap().unwrap();
    assert_eq!(again, info);
    assert_eq!(third, info);
    // the one wire query was popped inside the priming helper: no further
    // request bytes were queued by the repeated resolutions
    assert!(c.next_outgoing().is_none());
}

#[test]
fn absent_extension_fails_requests_before_transmission() {
    let mut c = Connection::new(7);
    let name = xwire::dri2::name();
    assert!(matches!(c.resolve_extension(&name), Ok(None)));
    let _query = c.next_outgoing().unwrap();
    let rep = reply32(1);
    assert!(matches!(c.deliver(rep), Ok(Delivered::ReplyFiled { seq: 1 })));
    assert!(matches!(
        c.resolve_extension(&name),
        Err(XError::ExtensionNotPresent)
    ));
    assert!(matches!(
        xwire::dri2::GetMsc(&mut c, 42),
        Err(XError::ExtensionNotPresent)
    ));
    assert!(c.next_outgoing().is_none());
}

#[test]
fn unresolved_extension_fails_requests_before_transmission() {
    let mut c = Connection::new(7);
    assert!(matches!(
        xwire::dri2::QueryVersion(&mut c, 1, 4),
        Err(XError::ExtensionNotPresent)
    ));
    assert!(c.next_outgoing().is_none());
}

#[test]
fn unchecked_void_returns_immediately() {
    let mut c = Connection::new(7);
    prime_dri2(&mut c);
    let ck = xwire::dri2::CreateDrawable(&mut c, 42).unwrap();
    assert!(matches!(c.resolve_void(&ck), Ok(Some(()))));
    assert!(matches!(c.resolve_void(&ck), Ok(Some(()))));
}

#[test]
fn checked_void_waits_for_acknowledgment() {
    let mut c = Connection::new(7);
    prime_dri2(&mut c);
    let ck = xwire::dri2::CreateDrawableChecked(&mut c, 42).unwrap();
    assert!(matches!(c.resolve_void(&ck), Ok(None)));
    let ack = reply32(2);
    assert!(matches!(c.deliver(ack), Ok(Delivered::ReplyFiled { seq: 2 })));
    assert!(matches!(c.resolve_void(&ck), Ok(Some(()))));
    assert!(matches!(c.resolve_void(&ck), Err(XError::StaleCookie)));
}

#[test]
fn checked_void_surfaces_protocol_error() {
    let mut c = Connection::new(7);
    prime_dri2(&mut c);
    let ck = xwire::dri2::SwapIntervalChecked(&mut c, 42, 1).unwrap();
    assert!(matches!(
        c.deliver(error32(BAD_VALUE, 2)),
        Ok(Delivered::ErrorFiled { seq: 2 })
    ));
    match c.resolve_void(&ck) {
        Err(XError::Protocol(pe)) => assert_eq!(pe.error_code, BAD_VALUE),
        other => panic!("a protocol error was owed, got {:?}", other),
    }
}

#[test]
fn events_queue_in_arrival_order() {
    let mut c = Connection::new(7);
    prime_dri2(&mut c);
    let mut ev1 = vec![0u8; 32];
    ev1[0] = 60;
    ev1[4] = 5;
    let mut ev2 = vec![0u8; 32];
    ev2[0] = 61;
    ev2[4] = 6;
    assert!(matches!(c.deliver(ev1), Ok(Delivered::EventQueued)));
    assert!(matches!(c.deliver(ev2), Ok(Delivered::EventQueued)));
    let first = c.poll_event().unwrap();
    let second = c.poll_event().unwrap();
    assert_eq!(first[0], 60);
    assert_eq!(second[0], 61);
    assert!(c.poll_event().is_none());
}

#[test]
fn protocol_error_fields_parse_exactly() {
    let mut b = vec![0u8; 32];
    b[1] = BAD_DRAWABLE;
    b[2] = 0x34;
    b[3] = 0x12;
    b[4] = 0x2a;
    b[8] = 0x05;
    b[10] = 155;
    let pe = ProtocolError::parse(&b);
    assert_eq!(pe.error_code, BAD_DRAWABLE);
    assert_eq!(pe.sequence, 0x1234);
    assert_eq!(pe.bad_value, 42);
    assert_eq!(pe.minor_opcode, 5);
    assert_eq!(pe.major_opcode, 155);
}
