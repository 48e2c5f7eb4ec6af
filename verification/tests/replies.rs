use xwire::connection::{Connection, Delivered, ExtensionInfo};
use xwire::error::XError;

fn push_u16(b: &mut Vec<u8>, v: u16) {
    b.push((v & 0xff) as u8);
    b.push((v >> 8) as u8);
}

fn push_u32(b: &mut Vec<u8>, v: u32) {
    b.push((v & 0xff) as u8);
    b.push(((v >> 8) & 0xff) as u8);
    b.push(((v >> 16) & 0xff) as u8);
    b.push(((v >> 24) & 0xff) as u8);
}

fn reply_header(seq16: u16, body_words: u32) -> Vec<u8> {
    let mut b = vec![0u8; 32];
    b[0] = 1;
    b[2] = (seq16 & 0xff) as u8;
    b[3] = (seq16 >> 8) as u8;
    b[4] = (body_words & 0xff) as u8;
    b[5] = ((body_words >> 8) & 0xff) as u8;
    b[6] = ((body_words >> 16) & 0xff) as u8;
    b[7] = ((body_words >> 24) & 0xff) as u8;
    b
}

fn prime(c: &mut Connection, name: Vec<u8>, major: u8, first_event: u8, first_error: u8) -> ExtensionInfo {
    assert!(matches!(c.resolve_extension(&name), Ok(None)));
    let _query = c.next_outgoing().unwrap();
    let mut rep = reply_header(1, 0);
    rep[8] = 1;
    rep[9] = major;
    rep[10] = first_event;
    rep[11] = first_error;
    assert!(matches!(c.deliver(rep), Ok(Delivered::ReplyFiled { seq: 1 })));
    c.resolve_extension(&name).unwrap().unwrap()
}

#[test]
fn bigreq_enable_reports_maximum_length() {
    let mut c = Connection::new(5);
    prime(&mut c, xwire::bigreq::name(), 133, 0, 0);
    let ck = xwire::bigreq::Enable(&mut c).unwrap();
    let req = c.next_outgoing().unwrap();
    assert_eq!(req, vec![133, 0, 1, 0]);
    let mut rep = reply_header(2, 0);
    rep[8] = 0xff;
    rep[9] = 0xff;
    rep[10] = 0x3f;
    c.deliver(rep).unwrap();
    let reply = ck.resolve(&mut c).unwrap().unwrap();
    assert_eq!(reply.maximum_request_length(), 0x3fffff);
}

#[test]
fn dri2_query_version_reply_fields() {
    let mut c = Connection::new(5);
    prime(&mut c, xwire::dri2::name(), 155, 60, 70);
    let ck = xwire::dri2::QueryVersion(&mut c, 1, 4).unwrap();
    let req = c.next_outgoing().unwrap();
    assert_eq!(req, vec![155, 0, 3, 0, 1, 0, 0, 0, 4, 0, 0, 0]);
    let mut rep = reply_header(2, 0);
    rep[8] = 1;
    rep[12] = 4;
    c.deliver(rep).unwrap();
    let reply = ck.resolve(&mut c).unwrap().unwrap();
    assert_eq!(reply.major_version(), 1);
    assert_eq!(reply.minor_version(), 4);
}

#[test]
fn dri2_connect_reply_extracts_names() {
    let mut c = Connection::new(5);
    prime(&mut c, xwire::dri2::name(), 155, 60, 70);
    let ck = xwire::dri2::Connect(&mut c, 42, xwire::dri2::XCB_DRI2_DRIVER_TYPE_DRI).unwrap();
    let driver = b"i965";
    let device = b"/dev/dri/card0";
    // body: the driver name (already 4-byte aligned), the device name, and
    // two trailing pad bytes so the whole body is a multiple of four
    let mut rep = reply_header(2, ((driver.len() + device.len() + 2) / 4) as u32);
    rep[8] = driver.len() as u8;
    rep[12] = device.len() as u8;
    for by in driver {
        rep.push(*by);
    }
    for by in device {
        rep.push(*by);
    }
    rep.push(0);
    rep.push(0);
    c.deliver(rep).unwrap();
    let reply = ck.resolve(&mut c).unwrap().unwrap();
    assert_eq!(reply.driver_name(), b"i965".to_vec());
    assert_eq!(reply.alignment_pad(), Vec::<u8>::new());
    assert_eq!(reply.device_name(), b"/dev/dri/card0".to_vec());
}

#[test]
fn xv_query_extension_reply_fields() {
    let mut c = Connection::new(5);
    prime(&mut c, xwire::xv::name(), 151, 76, 80);
    let ck = xwire::xv::QueryExtension(&mut c).unwrap();
    let req = c.next_outgoing().unwrap();
    assert_eq!(req, vec![151, 0, 1, 0]);
    let mut rep = reply_header(2, 0);
    rep[8] = 2;
    rep[10] = 2;
    c.deliver(rep).unwrap();
    let reply = ck.resolve(&mut c).unwrap().unwrap();
    assert_eq!(reply.major(), 2);
    assert_eq!(reply.minor(), 2);
}

#[test]
fn xv_grab_port_reply_result() {
    let mut c = Connection::new(5);
    prime(&mut c, xwire::xv::name(), 151, 76, 80);
    let ck = xwire::xv::GrabPort(&mut c, 9, 0).unwrap();
    let mut rep = reply_header(2, 0);
    rep[1] = xwire::xv::XCB_XV_GRAB_PORT_STATUS_ALREADY_GRABBED as u8;
    c.deliver(rep).unwrap();
    let reply = ck.resolve(&mut c).unwrap().unwrap();
    assert_eq!(reply.result(), 3);
}

#[test]
fn xv_query_best_size_reply_fields() {
    let mut c = Connection::new(5);
    prime(&mut c, xwire::xv::name(), 151, 76, 80);
    let ck = xwire::xv::QueryBestSize(&mut c, 9, 320, 240, 640, 480, 0).unwrap();
    let mut rep = reply_header(2, 0);
    rep[8] = 0x80;
    rep[9] = 0x02;
    rep[10] = 0xe0;
    rep[11] = 0x01;
    c.deliver(rep).unwrap();
    let reply = ck.resolve(&mut c).unwrap().unwrap();
    assert_eq!(reply.actual_width(), 640);
    assert_eq!(reply.actual_height(), 480);
}

#[test]
fn xv_get_port_attribute_negative_value() {
    let mut c = Connection::new(5);
    prime(&mut c, xwire::xv::name(), 151, 76, 80);
    let ck = xwire::xv::GetPortAttribute(&mut c, 9, 31).unwrap();
    let mut rep = reply_header(2, 0);
    rep[8] = 0x9c;
    rep[9] = 0xff;
    rep[10] = 0xff;
    rep[11] = 0xff;
    c.deliver(rep).unwrap();
    let reply = ck.resolve(&mut c).unwrap().unwrap();
    assert_eq!(reply.value(), -100);
}

#[test]
fn xv_query_adaptors_walks_variable_records() {
    let mut c = Connection::new(5);
    prime(&mut c, xwire::xv::name(), 151, 76, 80);
    let ck = xwire::xv::QueryAdaptors(&mut c, 42).unwrap();
    // two adaptors: one with a two-byte name padded to four and one format
    // record, one with an empty name and no formats
    let mut body: Vec<u8> = Vec::new();
    push_u32(&mut body, 900);
    push_u16(&mut body, 2);
    push_u16(&mut body, 4);
    push_u16(&mut body, 1);
    body.push(xwire::xv::XCB_XV_TYPE_INPUT_MASK as u8);
    body.push(0);
    body.push(b'T');
    body.push(b'V');
    body.push(0);
    body.push(0);
    push_u32(&mut body, 0x21);
    body.push(24);
    body.push(0);
    body.push(0);
    body.push(0);
    push_u32(&mut body, 905);
    push_u16(&mut body, 0);
    push_u16(&mut body, 1);
    push_u16(&mut body, 0);
    body.push(xwire::xv::XCB_XV_TYPE_IMAGE_MASK as u8);
    body.push(0);
    let mut rep = reply_header(2, (body.len() / 4) as u32);
    rep[8] = 2;
    for by in &body {
        rep.push(*by);
    }
    c.deliver(rep).unwrap();
    let reply = ck.resolve(&mut c).unwrap().unwrap();
    assert_eq!(reply.num_adaptors(), 2);
    let mut it = reply.info();
    let first = it.next(&reply.bytes).unwrap();
    assert_eq!(first.base_id(), 900);
    assert_eq!(first.num_ports(), 4);
    assert_eq!(first.type_(), 1);
    assert_eq!(first.name(), &b"TV".to_vec());
    assert_eq!(first.formats().len(), 1);
    assert_eq!(first.formats()[0].visual(), 0x21);
    assert_eq!(first.formats()[0].depth(), 24);
    let second = it.next(&reply.bytes).unwrap();
    assert_eq!(second.base_id(), 905);
    assert_eq!(second.num_ports(), 1);
    assert_eq!(second.name(), &Vec::<u8>::new());
    assert_eq!(second.formats().len(), 0);
    assert!(it.next(&reply.bytes).is_none());
    assert_eq!(it.remaining(), 0);
}

#[test]
fn xv_query_adaptors_overrunning_record_is_malformed() {
    let mut c = Connection::new(5);
    prime(&mut c, xwire::xv::name(), 151, 76, 80);
    let ck = xwire::xv::QueryAdaptors(&mut c, 42).unwrap();
    // outer length consistent, but the record declares a name far past the
    // end of the buffer
    let mut body: Vec<u8> = Vec::new();
    push_u32(&mut body, 900);
    push_u16(&mut body, 999);
    push_u16(&mut body, 4);
    push_u16(&mut body, 0);
    body.push(1);
    body.push(0);
    let mut rep = reply_header(2, (body.len() / 4) as u32);
    rep[8] = 1;
    for by in &body {
        rep.push(*by);
    }
    c.deliver(rep).unwrap();
    assert!(matches!(ck.resolve(&mut c), Err(XError::Malformed)));
}

#[test]
fn xv_query_encodings_reply_records() {
    let mut c = Connection::new(5);
    prime(&mut c, xwire::xv::name(), 151, 76, 80);
    let ck = xwire::xv::QueryEncodings(&mut c, 9).unwrap();
    let mut body: Vec<u8> = Vec::new();
    push_u32(&mut body, 77);
    push_u16(&mut body, 4);
    push_u16(&mut body, 720);
    push_u16(&mut body, 480);
    push_u16(&mut body, 0);
    push_u32(&mut body, 30000);
    push_u32(&mut body, 1001);
    body.push(b'n');
    body.push(b't');
    body.push(b's');
    body.push(b'c');
    let mut rep = reply_header(2, (body.len() / 4) as u32);
    rep[8] = 1;
    for by in &body {
        rep.push(*by);
    }
    c.deliver(rep).unwrap();
    let reply = ck.resolve(&mut c).unwrap().unwrap();
    assert_eq!(reply.num_encodings(), 1);
    let mut it = reply.info();
    let enc = it.next(&reply.bytes).unwrap();
    assert_eq!(enc.encoding(), 77);
    assert_eq!(enc.width(), 720);
    assert_eq!(enc.height(), 480);
    assert_eq!(enc.rate().numerator(), 30000);
    assert_eq!(enc.rate().denominator(), 1001);
    assert_eq!(enc.name(), &b"ntsc".to_vec());
    assert!(it.next(&reply.bytes).is_none());
}

#[test]
fn xv_query_port_attributes_reply_records() {
    let mut c = Connection::new(5);
    prime(&mut c, xwire::xv::name(), 151, 76, 80);
    let ck = xwire::xv::QueryPortAttributes(&mut c, 9).unwrap();
    let name = b"XV_BRIGHTNESS";
    let mut body: Vec<u8> = Vec::new();
    push_u32(&mut body, 3);
    push_u32(&mut body, 0xffff_fc18);
    push_u32(&mut body, 1000);
    push_u32(&mut body, name.len() as u32);
    for by in name {
        body.push(*by);
    }
    body.push(0);
    body.push(0);
    body.push(0);
    let mut rep = reply_header(2, (body.len() / 4) as u32);
    rep[8] = 1;
    rep[12] = name.len() as u8;
    for by in &body {
        rep.push(*by);
    }
    c.deliver(rep).unwrap();
    let reply = ck.resolve(&mut c).unwrap().unwrap();
    assert_eq!(reply.num_attributes(), 1);
    assert_eq!(reply.text_size(), 13);
    let mut it = reply.attributes();
    let attr = it.next(&reply.bytes).unwrap();
    assert_eq!(attr.flags(), 3);
    assert_eq!(attr.min(), -1000);
    assert_eq!(attr.max(), 1000);
    assert_eq!(attr.name(), &name.to_vec());
    assert!(it.next(&reply.bytes).is_none());
}

#[test]
fn xv_list_image_formats_reply_records() {
    let mut c = Connection::new(5);
    prime(&mut c, xwire::xv::name(), 151, 76, 80);
    let ck = xwire::xv::ListImageFormats(&mut c, 9).unwrap();
    let mut record = vec![0u8; 128];
    record[0] = 0x59;
    record[1] = 0x56;
    record[2] = 0x31;
    record[3] = 0x32;
    record[4] = xwire::xv::XCB_XV_IMAGE_FORMAT_INFO_TYPE_YUV as u8;
    record[24] = 12;
    record[25] = 3;
    record[28] = 12;
    record[44] = xwire::xv::XCB_XV_IMAGE_FORMAT_INFO_FORMAT_PLANAR as u8;
    record[48] = 8;
    record[84] = b'Y';
    record[85] = b'V';
    record[86] = b'U';
    record[116] = xwire::xv::XCB_XV_SCANLINE_ORDER_TOP_TO_BOTTOM as u8;
    let mut rep = reply_header(2, 32);
    rep[8] = 1;
    for by in &record {
        rep.push(*by);
    }
    c.deliver(rep).unwrap();
    let reply = ck.resolve(&mut c).unwrap().unwrap();
    assert_eq!(reply.num_formats(), 1);
    let mut it = reply.format();
    let f = it.next(&reply.bytes).unwrap();
    assert_eq!(f.id(), 0x32315659);
    assert_eq!(f.type_(), 2);
    assert_eq!(f.bpp(), 12);
    assert_eq!(f.num_planes(), 3);
    assert_eq!(f.depth(), 12);
    assert_eq!(f.format(), 2);
    assert_eq!(f.y_sample_bits(), 8);
    assert_eq!(f.vcomp_order()[0], b'Y');
    assert_eq!(f.vcomp_order()[1], b'V');
    assert_eq!(f.vcomp_order()[2], b'U');
    assert_eq!(f.vscanline_order(), 1);
    assert!(it.next(&reply.bytes).is_none());
}

#[test]
fn xv_query_image_attributes_reply_tables() {
    let mut c = Connection::new(5);
    prime(&mut c, xwire::xv::name(), 151, 76, 80);
    let ck = xwire::xv::QueryImageAttributes(&mut c, 9, 0x32315659, 320, 240).unwrap();
    let mut body: Vec<u8> = Vec::new();
    push_u32(&mut body, 320);
    push_u32(&mut body, 160);
    push_u32(&mut body, 160);
    push_u32(&mut body, 0);
    push_u32(&mut body, 76800);
    push_u32(&mut body, 96000);
    let mut rep = reply_header(2, (body.len() / 4) as u32);
    rep[8] = 3;
    rep[12] = 0x80;
    rep[13] = 0xc2;
    rep[14] = 0x01;
    rep[16] = 0x40;
    rep[17] = 0x01;
    rep[18] = 0xf0;
    for by in &body {
        rep.push(*by);
    }
    c.deliver(rep).unwrap();
    let reply = ck.resolve(&mut c).unwrap().unwrap();
    assert_eq!(reply.num_planes(), 3);
    assert_eq!(reply.data_size(), 115328);
    assert_eq!(reply.width(), 320);
    assert_eq!(reply.height(), 240);
    assert_eq!(reply.pitches(), vec![320, 160, 160]);
    assert_eq!(reply.offsets(), vec![0, 76800, 96000]);
}

#[test]
fn xv_put_image_pads_data_to_boundary() {
    let mut c = Connection::new(5);
    prime(&mut c, xwire::xv::name(), 151, 76, 80);
    let data = vec![9u8, 8, 7];
    let ck = xwire::xv::PutImageChecked(
        &mut c,
        9,
        42,
        5,
        0x32315659,
        0,
        0,
        4,
        2,
        0,
        0,
        4,
        2,
        4,
        2,
        &data,
    )
    .unwrap();
    let req = c.next_outgoing().unwrap();
    // fixed fields plus three data bytes zero-filled to the 4-byte boundary
    assert_eq!(req.len(), 44);
    assert_eq!(req[0], 151);
    assert_eq!(req[1], 18);
    assert_eq!(req[2], 11);
    assert_eq!(req[3], 0);
    assert_eq!(&req[40..44], &[9u8, 8, 7, 0][..]);
    assert!(matches!(c.resolve_void(&ck), Ok(None)));
}

#[test]
fn xv_image_record_parses_by_plane_count() {
    let mut b: Vec<u8> = Vec::new();
    push_u32(&mut b, 0x30323449);
    push_u16(&mut b, 4);
    push_u16(&mut b, 2);
    push_u32(&mut b, 3);
    push_u32(&mut b, 1);
    push_u32(&mut b, 4);
    push_u32(&mut b, 0);
    b.push(0xaa);
    b.push(0xbb);
    b.push(0xcc);
    let img = xwire::xv::Image::parse(&b, 0);
    assert_eq!(img.id(), 0x30323449);
    assert_eq!(img.width(), 4);
    assert_eq!(img.height(), 2);
    assert_eq!(img.pitches(), &vec![4u32]);
    assert_eq!(img.offsets(), &vec![0u32]);
    assert_eq!(img.data(), &vec![0xaau8, 0xbb, 0xcc]);
}
