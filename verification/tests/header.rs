use libvirt_proto::header::HEADER_LEN;
use libvirt_proto::xdr::{read_i32, read_u32};
use libvirt_proto::{DecodeError, MessageHeader, MessageStatus, MessageType};

fn sample_header() -> MessageHeader {
    MessageHeader {
        prog: 0x2000_8086,
        vers: 1,
        proc_: 66,
        type_: MessageType::Reply,
        serial: 0x0102_0304,
        status: MessageStatus::Continue,
    }
}

const SAMPLE_BYTES: [u8; 24] = [
    0x20, 0x00, 0x80, 0x86, // prog
    0x00, 0x00, 0x00, 0x01, // vers
    0x00, 0x00, 0x00, 0x42, // proc
    0x00, 0x00, 0x00, 0x01, // type
    0x01, 0x02, 0x03, 0x04, // serial
    0x00, 0x00, 0x00, 0x02, // status
];

#[test]
fn header_packs_to_six_big_endian_words() {
    let mut out = Vec::new();
    sample_header().pack(&mut out);
    assert_eq!(out, SAMPLE_BYTES.to_vec());
    assert_eq!(out.len(), HEADER_LEN);
}

#[test]
fn header_pack_appends_behind_existing_bytes() {
    let mut out = vec![0xaa, 0xbb];
    sample_header().pack(&mut out);
    assert_eq!(&out[..2], &[0xaa, 0xbb]);
    assert_eq!(&out[2..], &SAMPLE_BYTES[..]);
}

#[test]
fn header_unpacks_from_its_bytes() {
    assert_eq!(MessageHeader::unpack(&SAMPLE_BYTES), Ok(sample_header()));
}

#[test]
fn header_unpack_ignores_bytes_behind_the_header() {
    let mut bytes = SAMPLE_BYTES.to_vec();
    bytes.extend_from_slice(b"payload");
    assert_eq!(MessageHeader::unpack(&bytes), Ok(sample_header()));
}

#[test]
fn header_round_trips_for_every_type_and_status() {
    let types = [
        MessageType::Call,
        MessageType::Reply,
        MessageType::Event,
        MessageType::Stream,
        MessageType::CallWithFds,
        MessageType::ReplyWithFds,
    ];
    let statuses = [MessageStatus::Success, MessageStatus::Failure, MessageStatus::Continue];
    for type_ in types.iter() {
        for status in statuses.iter() {
            let header = MessageHeader {
                prog: u32::MAX,
                vers: 0,
                proc_: 0x8000_0001,
                type_: *type_,
                serial: 0xdead_beef,
                status: *status,
            };
            let mut out = Vec::new();
            header.pack(&mut out);
            assert_eq!(out.len(), 24);
            assert_eq!(MessageHeader::unpack(&out), Ok(header));
        }
    }
}

#[test]
fn header_shorter_than_24_bytes_is_short() {
    assert_eq!(MessageHeader::unpack(&[]), Err(DecodeError::ShortHeader));
    assert_eq!(MessageHeader::unpack(&SAMPLE_BYTES[..23]), Err(DecodeError::ShortHeader));
}

#[test]
fn header_with_unknown_type_is_rejected() {
    let mut bytes = SAMPLE_BYTES;
    bytes[15] = 6;
    assert_eq!(MessageHeader::unpack(&bytes), Err(DecodeError::UnknownType));
    bytes[12] = 0xff;
    bytes[13] = 0xff;
    bytes[14] = 0xff;
    bytes[15] = 0xff;
    assert_eq!(MessageHeader::unpack(&bytes), Err(DecodeError::UnknownType));
}

#[test]
fn header_with_unknown_status_is_rejected() {
    let mut bytes = SAMPLE_BYTES;
    bytes[23] = 3;
    assert_eq!(MessageHeader::unpack(&bytes), Err(DecodeError::UnknownStatus));
}

#[test]
fn header_with_unknown_type_and_status_reports_the_type() {
    let mut bytes = SAMPLE_BYTES;
    bytes[15] = 9;
    bytes[23] = 9;
    assert_eq!(MessageHeader::unpack(&bytes), Err(DecodeError::UnknownType));
}

#[test]
fn type_codes_are_the_protocol_discriminants() {
    assert_eq!(MessageType::Call.to_wire(), 0);
    assert_eq!(MessageType::Reply.to_wire(), 1);
    assert_eq!(MessageType::Event.to_wire(), 2);
    assert_eq!(MessageType::Stream.to_wire(), 3);
    assert_eq!(MessageType::CallWithFds.to_wire(), 4);
    assert_eq!(MessageType::ReplyWithFds.to_wire(), 5);
    assert_eq!(MessageType::from_wire(3), Some(MessageType::Stream));
    assert_eq!(MessageType::from_wire(6), None);
    assert_eq!(MessageType::from_wire(-1), None);
}

#[test]
fn status_codes_are_the_protocol_discriminants() {
    assert_eq!(MessageStatus::Success.to_wire(), 0);
    assert_eq!(MessageStatus::Failure.to_wire(), 1);
    assert_eq!(MessageStatus::Continue.to_wire(), 2);
    assert_eq!(MessageStatus::from_wire(1), Some(MessageStatus::Failure));
    assert_eq!(MessageStatus::from_wire(3), None);
    assert_eq!(MessageStatus::from_wire(i32::MIN), None);
}

#[test]
fn words_are_read_big_endian_at_an_offset() {
    let bytes = [0xff, 0x12, 0x34, 0x56, 0x78, 0xff];
    assert_eq!(read_u32(&bytes, 1), Some(0x1234_5678));
    assert_eq!(read_u32(&bytes, 2), Some(0x3456_78ff));
    assert_eq!(read_u32(&bytes, 3), None);
    assert_eq!(read_u32(&bytes, usize::MAX), None);
}

#[test]
fn signed_words_are_twos_complement() {
    assert_eq!(read_i32(&[0xff, 0xff, 0xff, 0xff], 0), Some(-1));
    assert_eq!(read_i32(&[0x80, 0x00, 0x00, 0x00], 0), Some(i32::MIN));
    assert_eq!(read_i32(&[0x7f, 0xff, 0xff, 0xff], 0), Some(i32::MAX));
    assert_eq!(read_i32(&[0x00, 0x00, 0x01], 0), None);
}
