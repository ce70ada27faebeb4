use bytes::BytesMut;
use libvirt_proto::codec::body_len;
use libvirt_proto::{
    DecodeError, EncodeError, LibvirtCodec, LibvirtRequest, MessageHeader, MessageStatus, MessageType,
};

fn call_header(serial: u32) -> MessageHeader {
    MessageHeader {
        prog: 0x2000_8086,
        vers: 1,
        proc_: 1,
        type_: MessageType::Call,
        serial,
        status: MessageStatus::Success,
    }
}

#[test]
fn encode_overwrites_the_serial_and_appends_the_payload() {
    let mut codec = LibvirtCodec;
    let req =
        LibvirtRequest { header: call_header(999), payload: BytesMut::from(&b"\x01\x02\x03"[..]) };
    let mut buf = BytesMut::new();
    assert_eq!(codec.encode((7, req), &mut buf), Ok(()));
    let expected: [u8; 27] = [
        0x20, 0x00, 0x80, 0x86, 0, 0, 0, 1, 0, 0, 0, 1, 0, 0, 0, 0, 0, 0, 0, 7, 0, 0, 0, 0, 1, 2,
        3,
    ];
    assert_eq!(&buf[..], &expected[..]);
}

#[test]
fn encode_appends_behind_what_the_buffer_holds() {
    let mut codec = LibvirtCodec;
    let req = LibvirtRequest { header: call_header(0), payload: BytesMut::new() };
    let mut buf = BytesMut::from(&b"xy"[..]);
    assert_eq!(codec.encode((1, req), &mut buf), Ok(()));
    assert_eq!(buf.len(), 2 + 24);
    assert_eq!(&buf[..2], b"xy");
    assert_eq!(&buf[18..22], &[0, 0, 0, 1]);
}

#[test]
fn encode_keeps_the_low_32_bits_of_a_wide_identifier() {
    let mut codec = LibvirtCodec;
    let req = LibvirtRequest { header: call_header(5), payload: BytesMut::new() };
    let mut buf = BytesMut::new();
    assert_eq!(codec.encode((0x1_0000_0002, req), &mut buf), Ok(()));
    assert_eq!(&buf[16..20], &[0, 0, 0, 2]);

    let req = LibvirtRequest { header: call_header(5), payload: BytesMut::new() };
    let mut buf = BytesMut::new();
    assert_eq!(codec.encode((u64::MAX, req), &mut buf), Ok(()));
    assert_eq!(&buf[16..20], &[0xff, 0xff, 0xff, 0xff]);
}

#[test]
fn decode_splits_header_and_payload() {
    let mut codec = LibvirtCodec;
    let mut frame = BytesMut::from(
        &[
            0x20u8, 0x00, 0x80, 0x86, 0, 0, 0, 1, 0, 0, 0, 1, 0, 0, 0, 1, 0, 0, 1, 0, 0, 0, 0, 1,
            9, 8, 7, 6, 5,
        ][..],
    );
    let (id, resp) = codec.decode(&mut frame).unwrap().unwrap();
    assert_eq!(id, 256);
    assert_eq!(resp.header.serial, 256);
    assert_eq!(resp.header.type_, MessageType::Reply);
    assert_eq!(resp.header.status, MessageStatus::Failure);
    assert_eq!(resp.header.proc_, 1);
    assert_eq!(&resp.payload[..], &[9, 8, 7, 6, 5]);
    assert_eq!(frame.len(), 24);
}

#[test]
fn decode_of_a_bare_header_gives_an_empty_payload() {
    let mut codec = LibvirtCodec;
    let mut head = Vec::new();
    call_header(3).pack(&mut head);
    let mut frame = BytesMut::from(head);
    let (id, resp) = codec.decode(&mut frame).unwrap().unwrap();
    assert_eq!(id, 3);
    assert_eq!(resp.header, call_header(3));
    assert!(resp.payload.is_empty());
}

#[test]
fn decode_rejects_a_frame_shorter_than_a_header() {
    let mut codec = LibvirtCodec;
    let mut frame = BytesMut::from(&[0u8; 23][..]);
    assert_eq!(codec.decode(&mut frame).err(), Some(DecodeError::ShortHeader));
    assert_eq!(frame.len(), 23);
    let mut empty = BytesMut::new();
    assert_eq!(codec.decode(&mut empty).err(), Some(DecodeError::ShortHeader));
}

#[test]
fn decode_rejects_unknown_discriminants_and_leaves_the_frame() {
    let mut codec = LibvirtCodec;
    let mut head = Vec::new();
    call_header(3).pack(&mut head);
    let mut bad_type = head.clone();
    bad_type[15] = 77;
    let mut frame = BytesMut::from(bad_type.clone());
    assert_eq!(codec.decode(&mut frame).err(), Some(DecodeError::UnknownType));
    assert_eq!(&frame[..], &bad_type[..]);
    let mut bad_status = head.clone();
    bad_status[20] = 0x80;
    let mut frame = BytesMut::from(bad_status);
    assert_eq!(codec.decode(&mut frame).err(), Some(DecodeError::UnknownStatus));
}

#[test]
fn round_trip_preserves_header_and_payload() {
    let mut codec = LibvirtCodec;
    let payloads: [&[u8]; 4] = [b"", b"a", b"\x00\xff\x7f\x80", &[0x55; 300]];
    let ids: [u64; 4] = [0, 1, 0x8000_0000, 0xffff_ffff];
    for payload in payloads.iter() {
        for id in ids.iter() {
            let header = MessageHeader {
                prog: 0xfeed_f00d,
                vers: 0xffff_ffff,
                proc_: 318,
                type_: MessageType::ReplyWithFds,
                serial: 12345,
                status: MessageStatus::Continue,
            };
            let req = LibvirtRequest { header, payload: BytesMut::from(*payload) };
            let mut buf = BytesMut::new();
            assert_eq!(codec.encode((*id, req), &mut buf), Ok(()));
            let (got_id, resp) = codec.decode(&mut buf).unwrap().unwrap();
            assert_eq!(got_id, *id);
            assert_eq!(resp.header.serial as u64, *id);
            assert_eq!(resp.header.prog, header.prog);
            assert_eq!(resp.header.vers, header.vers);
            assert_eq!(resp.header.proc_, header.proc_);
            assert_eq!(resp.header.type_, header.type_);
            assert_eq!(resp.header.status, header.status);
            assert_eq!(&resp.payload[..], *payload);
        }
    }
}

#[test]
fn round_trip_of_a_wide_identifier_gives_its_low_bits() {
    let mut codec = LibvirtCodec;
    let req = LibvirtRequest { header: call_header(0), payload: BytesMut::from(&b"p"[..]) };
    let mut buf = BytesMut::new();
    assert_eq!(codec.encode((0x1_0000_0000, req), &mut buf), Ok(()));
    let (id, resp) = codec.decode(&mut buf).unwrap().unwrap();
    assert_eq!(id, 0);
    assert_eq!(resp.header.serial, 0);
}

#[test]
fn cloned_messages_hold_the_same_bytes() {
    let req = LibvirtRequest { header: call_header(1), payload: BytesMut::from(&b"abc"[..]) };
    let copy = req.clone();
    assert_eq!(copy.header, req.header);
    assert_eq!(&copy.payload[..], b"abc");
}

#[test]
fn body_length_counts_header_and_payload() {
    assert_eq!(body_len(0), Ok(24));
    assert_eq!(body_len(1), Ok(25));
    assert_eq!(body_len(0xffff_ffff - 24), Ok(0xffff_ffff));
}

#[test]
fn body_too_long_for_a_frame_is_turned_away() {
    if let Some(n) = 0xffff_ffffusize.checked_add(1) {
        assert_eq!(body_len(n - 24), Err(EncodeError::FrameTooLarge));
        assert_eq!(body_len(n), Err(EncodeError::FrameTooLarge));
    }
    assert_eq!(body_len(0xffff_ffff - 23), Err(EncodeError::FrameTooLarge));
    assert_eq!(body_len(usize::MAX), Err(EncodeError::FrameTooLarge));
}

#[test]
fn decode_rejects_an_event_of_an_unknown_kind() {
    let mut codec = LibvirtCodec;
    let header = MessageHeader {
        prog: 1,
        vers: 1,
        proc_: 317,
        type_: MessageType::Event,
        serial: 0,
        status: MessageStatus::Success,
    };
    let mut bytes = Vec::new();
    header.pack(&mut bytes);
    bytes.extend_from_slice(b"payload");
    let mut frame = BytesMut::from(bytes.clone());
    assert_eq!(codec.decode(&mut frame).err(), Some(DecodeError::UnknownProcedure));
    assert_eq!(&frame[..], &bytes[..]);
}

#[test]
fn decode_accepts_an_event_of_the_known_kind() {
    let mut codec = LibvirtCodec;
    let header = MessageHeader {
        prog: 1,
        vers: 1,
        proc_: 318,
        type_: MessageType::Event,
        serial: 0,
        status: MessageStatus::Success,
    };
    let mut bytes = Vec::new();
    header.pack(&mut bytes);
    let mut frame = BytesMut::from(bytes);
    let (id, resp) = codec.decode(&mut frame).unwrap().unwrap();
    assert_eq!(id, 0);
    assert_eq!(resp.header, header);
}

#[test]
fn decode_passes_on_the_procedure_of_a_message_that_is_no_event() {
    let mut codec = LibvirtCodec;
    let types = [
        MessageType::Call,
        MessageType::Reply,
        MessageType::Stream,
        MessageType::CallWithFds,
        MessageType::ReplyWithFds,
    ];
    for type_ in types.iter() {
        for proc_ in [0u32, 317, 0x7fff_ffff, 0xffff_ffff].iter() {
            let header = MessageHeader {
                prog: 1,
                vers: 1,
                proc_: *proc_,
                type_: *type_,
                serial: 6,
                status: MessageStatus::Success,
            };
            let mut bytes = Vec::new();
            header.pack(&mut bytes);
            let mut frame = BytesMut::from(bytes);
            let (id, resp) = codec.decode(&mut frame).unwrap().unwrap();
            assert_eq!(id, 6);
            assert_eq!(resp.header, header);
        }
    }
}

#[test]
fn encode_turns_away_an_event_of_an_unknown_kind() {
    let mut codec = LibvirtCodec;
    let header = MessageHeader {
        prog: 1,
        vers: 1,
        proc_: 12,
        type_: MessageType::Event,
        serial: 0,
        status: MessageStatus::Success,
    };
    let req = LibvirtRequest { header, payload: BytesMut::from(&b"abc"[..]) };
    let mut buf = BytesMut::from(&b"kept"[..]);
    assert_eq!(codec.encode((1, req), &mut buf), Err(EncodeError::UnknownProcedure));
    assert_eq!(&buf[..], b"kept");

    let known = MessageHeader { proc_: 318, ..header };
    let req = LibvirtRequest { header: known, payload: BytesMut::from(&b"abc"[..]) };
    assert_eq!(codec.encode((1, req), &mut buf), Ok(()));
    assert_eq!(buf.len(), 4 + 24 + 3);
}
