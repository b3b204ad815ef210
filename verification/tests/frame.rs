//! Unit tests of the frame boundary and of encoding into the transport's
//! `bytes` buffer.

use smpp_core::bytes_buf::bytes_mut_as_slice;
use smpp_core::bytes_buf::bytes_mut_extend_from_slice;
use smpp_core::bytes_buf::bytes_mut_len;
use smpp_core::bytes_buf::bytes_mut_new;
use smpp_core::bytes_buf::encode_frame_into_bytes;
use smpp_core::command::Command;
use smpp_core::command::CommandId;
use smpp_core::command::FrameError;
use smpp_core::command::Pdu;
use smpp_core::command::decode_frame;
use smpp_core::strings::AnyOctetString;

const MAX_FRAME: usize = 65536;

#[test]
fn frame_needs_more_bytes() {
    // fewer than four bytes: not even the length is readable
    assert_eq!(decode_frame(&[0x00, 0x00], MAX_FRAME).unwrap(), None);

    // a full header announced but not yet buffered
    let partial = [0x00u8, 0x00, 0x00, 0x10, 0x00, 0x00];
    assert_eq!(decode_frame(&partial, MAX_FRAME).unwrap(), None);
}

#[test]
fn frame_length_bounds() {
    // a declared length under the 16 header bytes
    let short = [0x00u8, 0x00, 0x00, 0x0F];
    assert!(matches!(
        decode_frame(&short, MAX_FRAME).unwrap_err(),
        FrameError::FrameTooShort { length: 15 }
    ));

    // a declared length over the configured ceiling
    let huge = [0x00u8, 0x01, 0x00, 0x01];
    assert!(matches!(
        decode_frame(&huge, MAX_FRAME).unwrap_err(),
        FrameError::FrameTooLarge { length: 65537, max: MAX_FRAME }
    ));
}

#[test]
fn frame_header_round_trip() {
    // an enquire_link frame is the bare 16-byte header
    let command = Command::new(CommandId::EnquireLink, 0, 2, Pdu::EnquireLink);
    let mut wire: Vec<u8> = Vec::new();
    command.encode_frame_to(&mut wire);
    assert_eq!(
        &wire[..],
        &[
            0x00, 0x00, 0x00, 0x10, // command_length 16
            0x00, 0x00, 0x00, 0x15, // command_id enquire_link
            0x00, 0x00, 0x00, 0x00, // command_status 0
            0x00, 0x00, 0x00, 0x02, // sequence_number 2
        ]
    );
    let (decoded, consumed) = decode_frame(&wire, MAX_FRAME).unwrap().unwrap();
    assert_eq!(consumed, 16);
    assert_eq!(decoded, command);
}

#[test]
fn frame_with_unknown_id_keeps_body_opaque() {
    // an unregistered command id: the body is kept as raw bytes and the
    // frame re-encodes byte-identically
    let body = AnyOctetString::new(vec![0xDE, 0xAD, 0xBE, 0xEF]);
    let command = Command::new(CommandId::Other(0x0000F123), 0, 9, Pdu::Other(body));
    let mut wire: Vec<u8> = Vec::new();
    command.encode_frame_to(&mut wire);
    assert_eq!(wire.len(), 20);

    let (decoded, consumed) = decode_frame(&wire, MAX_FRAME).unwrap().unwrap();
    assert_eq!(consumed, 20);
    assert_eq!(decoded.id(), CommandId::Other(0x0000F123));
    match decoded.pdu().unwrap() {
        Pdu::Other(b) => assert_eq!(b.as_bytes(), &[0xDE, 0xAD, 0xBE, 0xEF]),
        other => panic!("unexpected body: {:?}", other),
    }
    let mut rewire: Vec<u8> = Vec::new();
    decoded.encode_frame_to(&mut rewire);
    assert_eq!(rewire, wire);
}

#[test]
fn checked_frame_encoding_matches() {
    let command = Command::new(CommandId::Unbind, 0, 3, Pdu::Unbind);
    let mut checked: Vec<u8> = Vec::new();
    assert!(command.try_encode_frame_to(&mut checked));
    let mut plain: Vec<u8> = Vec::new();
    command.encode_frame_to(&mut plain);
    assert_eq!(checked, plain);
}

#[test]
fn two_frames_decode_in_wire_order() {
    let first = Command::new(CommandId::EnquireLink, 0, 1, Pdu::EnquireLink);
    let second = Command::new(CommandId::Unbind, 0, 2, Pdu::Unbind);
    let mut wire: Vec<u8> = Vec::new();
    first.encode_frame_to(&mut wire);
    second.encode_frame_to(&mut wire);

    let (decoded, consumed) = decode_frame(&wire, MAX_FRAME).unwrap().unwrap();
    assert_eq!(decoded, first);
    let (decoded, rest_consumed) = decode_frame(&wire[consumed..], MAX_FRAME).unwrap().unwrap();
    assert_eq!(decoded, second);
    assert_eq!(consumed + rest_consumed, wire.len());
}

#[test]
fn encode_into_bytes_buffer() {
    // the frame lands in the transport buffer after what it already holds
    let mut buf = bytes_mut_new();
    assert_eq!(bytes_mut_len(&buf), 0);
    bytes_mut_extend_from_slice(&mut buf, &[0x01, 0x02]);

    let command = Command::new(CommandId::EnquireLink, 0, 2, Pdu::EnquireLink);
    encode_frame_into_bytes(&command, &mut buf);

    let mut expected: Vec<u8> = vec![0x01, 0x02];
    command.encode_frame_to(&mut expected);
    assert_eq!(bytes_mut_len(&buf), expected.len());
    assert_eq!(bytes_mut_as_slice(&buf), &expected[..]);
}
