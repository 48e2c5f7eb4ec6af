use xwire::connection::{Connection, Delivered, ExtensionInfo};
use xwire::cursor::FixedCursor;

fn prime_dri2(c: &mut Connection) -> ExtensionInfo {
    let name = xwire::dri2::name();
    assert!(matches!(c.resolve_extension(&name), Ok(None)));
    let _query = c.next_outgoing().unwrap();
    let mut rep = vec![0u8; 32];
    rep[0] = 1;
    rep[2] = 1;
    rep[8] = 1;
    rep[9] = 155;
    rep[10] = 60;
    rep[11] = 70;
    assert!(matches!(c.deliver(rep), Ok(Delivered::ReplyFiled { seq: 1 })));
    c.resolve_extension(&name).unwrap().unwrap()
}

fn push_u32(b: &mut Vec<u8>, v: u32) {
    b.push((v & 0xff) as u8);
    b.push(((v >> 8) & 0xff) as u8);
    b.push(((v >> 16) & 0xff) as u8);
    b.push(((v >> 24) & 0xff) as u8);
}

fn set_u32(b: &mut Vec<u8>, off: usize, v: u32) {
    b[off] = (v & 0xff) as u8;
    b[off + 1] = ((v >> 8) & 0xff) as u8;
    b[off + 2] = ((v >> 16) & 0xff) as u8;
    b[off + 3] = ((v >> 24) & 0xff) as u8;
}

fn buffers_reply(seq16: u16, width: u32, height: u32, recs: &[[u32; 5]]) -> Vec<u8> {
    let mut b = vec![0u8; 32];
    b[0] = 1;
    b[2] = (seq16 & 0xff) as u8;
    b[3] = (seq16 >> 8) as u8;
    set_u32(&mut b, 4, (recs.len() * 5) as u32);
    set_u32(&mut b, 8, width);
    set_u32(&mut b, 12, height);
    set_u32(&mut b, 16, recs.len() as u32);
    for rec in recs {
        for f in rec {
            push_u32(&mut b, *f);
        }
    }
    b
}

#[test]
fn iterator_yields_exactly_k_records() {
    let mut c = Connection::new(9);
    prime_dri2(&mut c);
    let attachments = vec![1u32, 2, 3];
    let ck = xwire::dri2::GetBuffers(&mut c, 42, 3, &attachments).unwrap();
    let rep = buffers_reply(
        2,
        100,
        200,
        &[[1, 10, 400, 4, 0], [2, 11, 400, 4, 0], [3, 12, 400, 4, 0]],
    );
    let declared_len = rep.len();
    c.deliver(rep).unwrap();
    let reply = ck.resolve(&mut c).unwrap().unwrap();
    let mut it = reply.buffers();
    let mut yielded: usize = 0;
    while let Some(rec) = it.next(&reply.bytes) {
        assert_eq!(rec.attachment(), (yielded + 1) as u32);
        assert_eq!(rec.name(), (yielded + 10) as u32);
        yielded += 1;
        assert!(yielded <= 3);
    }
    assert_eq!(yielded, 3);
    // the call after the last record reports exhaustion, and stays exhausted
    assert!(it.next(&reply.bytes).is_none());
    assert_eq!(it.remaining(), 0);
    // cumulative bytes advanced equal the declared record-region length
    assert_eq!(it.cur.off, it.cur.limit);
    assert_eq!(it.cur.off, declared_len);
}

#[test]
fn fresh_cursor_over_empty_region_is_exhausted() {
    let mut cur = FixedCursor::new(32, 0, 20, 32);
    assert!(!cur.has_next());
    assert!(cur.next().is_none());
    assert_eq!(cur.off, 32);
}

#[test]
fn cursor_advances_by_element_size() {
    let mut cur = FixedCursor::new(0, 2, 8, 16);
    assert!(cur.has_next());
    assert_eq!(cur.next(), Some(0));
    assert_eq!(cur.next(), Some(8));
    assert_eq!(cur.next(), None);
    assert_eq!(cur.off, 16);
}

#[test]
fn get_buffers_scenario() {
    let mut c = Connection::new(3);
    prime_dri2(&mut c);
    let attachments = vec![xwire::dri2::XCB_DRI2_ATTACHMENT_BUFFER_FRONT_LEFT];
    let ck = xwire::dri2::GetBuffers(&mut c, 42, 1, &attachments).unwrap();
    assert_eq!(ck.base.sequence, 2);
    // the encoded request: major opcode, minor opcode, length in words,
    // drawable, count, then the attachment list
    let req = c.next_outgoing().unwrap();
    assert_eq!(
        req,
        vec![155, 5, 4, 0, 42, 0, 0, 0, 1, 0, 0, 0, 1, 0, 0, 0]
    );
    let rep = buffers_reply(2, 800, 600, &[[1, 7, 3200, 4, 0]]);
    c.deliver(rep).unwrap();
    let reply = ck.resolve(&mut c).unwrap().unwrap();
    assert_eq!(reply.width(), 800);
    assert_eq!(reply.height(), 600);
    assert_eq!(reply.count(), 1);
    let mut it = reply.buffers();
    let rec = it.next(&reply.bytes).expect("one buffer record");
    assert_eq!(rec.attachment(), 1);
    assert_eq!(rec.name(), 7);
    assert_eq!(rec.pitch(), 3200);
    assert_eq!(rec.cpp(), 4);
    assert_eq!(rec.flags(), 0);
    assert!(it.next(&reply.bytes).is_none());
}

#[test]
fn truncated_record_list_is_malformed() {
    let mut c = Connection::new(3);
    prime_dri2(&mut c);
    let attachments = vec![1u32];
    let ck = xwire::dri2::GetBuffers(&mut c, 42, 1, &attachments).unwrap();
    // outer length consistent (one word of padding), but the count field
    // declares two records where only four bytes follow the header
    let mut rep = vec![0u8; 36];
    rep[0] = 1;
    rep[2] = 2;
    rep[4] = 1;
    rep[16] = 2;
    c.deliver(rep).unwrap();
    assert!(matches!(
        ck.resolve(&mut c),
        Err(xwire::error::XError::Malformed)
    ));
    // a malformed reply is fatal: the connection is torn down
    assert!(matches!(
        xwire::dri2::GetMsc(&mut c, 42),
        Err(xwire::error::XError::Transport)
    ));
}

#[test]
fn attach_format_iterator_walks_records() {
    let mut b: Vec<u8> = Vec::new();
    push_u32(&mut b, 1);
    push_u32(&mut b, 0x32315659);
    push_u32(&mut b, 3);
    push_u32(&mut b, 0x30323449);
    let mut it = xwire::dri2::AttachFormatIterator {
        cur: FixedCursor::new(0, 2, 8, 16),
    };
    let first = it.next(&b).unwrap();
    assert_eq!(first.attachment(), 1);
    assert_eq!(first.format(), 0x32315659);
    let second = it.next(&b).unwrap();
    assert_eq!(second.attachment(), 3);
    assert_eq!(second.format(), 0x30323449);
    assert!(it.next(&b).is_none());
}

#[test]
fn get_buffers_with_format_request_and_reply() {
    let mut c = Connection::new(3);
    prime_dri2(&mut c);
    let attachments = vec![xwire::dri2::AttachFormat { attachment: 1, format: 32 }];
    let ck = xwire::dri2::GetBuffersWithFormat(&mut c, 42, 1, &attachments).unwrap();
    let req = c.next_outgoing().unwrap();
    assert_eq!(
        req,
        vec![155, 7, 5, 0, 42, 0, 0, 0, 1, 0, 0, 0, 1, 0, 0, 0, 32, 0, 0, 0]
    );
    let rep = buffers_reply(2, 640, 480, &[[1, 9, 2560, 4, 0]]);
    c.deliver(rep).unwrap();
    let reply = ck.resolve(&mut c).unwrap().unwrap();
    assert_eq!(reply.width(), 640);
    assert_eq!(reply.height(), 480);
    let mut it = reply.buffers();
    let rec = it.next(&reply.bytes).unwrap();
    assert_eq!(rec.name(), 9);
    assert!(it.next(&reply.bytes).is_none());
}
