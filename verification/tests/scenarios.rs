//! End-to-end exchanges over the frame codec and the session machinery.

use smpp_core::command::Command;
use smpp_core::command::CommandId;
use smpp_core::command::Pdu;
use smpp_core::command::decode_frame;
use smpp_core::pdus::bind::Bind;
use smpp_core::pdus::bind::BindResp;
use smpp_core::pdus::submit_sm::SubmitSm;
use smpp_core::pdus::submit_sm::SubmitSmResp;
use smpp_core::session::BindMode;
use smpp_core::session::SequenceCounter;
use smpp_core::session::SessionEvent;
use smpp_core::session::SessionState;
use smpp_core::session::transition;
use smpp_core::strings::AnyOctetString;
use smpp_core::strings::COctetString;
use smpp_core::strings::EmptyOrFullCOctetString;
use smpp_core::strings::OctetString;
use smpp_core::tlv::MessagePayload;
use smpp_core::tlv::Tlv;
use smpp_core::tlv::TlvTag;
use smpp_core::tlv::TlvValue;
use smpp_core::values::InterfaceVersion;
use smpp_core::values::Npi;
use smpp_core::values::RegisteredDelivery;
use smpp_core::values::Ton;
use smpp_core::errors::ConcatenatedShortMessageDecodeError;
use smpp_core::udh::ConcatenatedShortMessage;
use smpp_core::udh::Udh;
use smpp_core::errors::DecodeErrorKind;
use smpp_core::errors::HeaplessVecDecodeError;
use smpp_core::tlv::decode_tlvs_bounded;

const MAX_FRAME: usize = 65536;

fn c_octet<const MIN: usize, const MAX: usize>(s: &str) -> COctetString<MIN, MAX> {
    COctetString::from_ascii(s.as_bytes()).unwrap()
}

fn test_bind(system_id: &str, password: &str) -> Bind {
    Bind::new(
        c_octet(system_id),
        c_octet(password),
        c_octet(""),
        InterfaceVersion::smpp_5_0(),
        Ton::Unknown,
        Npi::Unknown,
        c_octet(""),
    )
}

fn submit(
    source: &str,
    dest: &str,
    short_message: &[u8],
    tlvs: Vec<Tlv>,
) -> SubmitSm {
    SubmitSm::new(
        c_octet(""),
        Ton::Unknown,
        Npi::Unknown,
        c_octet(source),
        Ton::Unknown,
        Npi::Unknown,
        c_octet(dest),
        0,
        0,
        0,
        EmptyOrFullCOctetString::empty(),
        EmptyOrFullCOctetString::empty(),
        RegisteredDelivery::default(),
        0,
        0,
        0,
        OctetString::new(short_message.to_vec()).unwrap(),
        tlvs,
    )
}

/// Writes a command as a frame and reads it back off the wire.
fn round_trip(command: &Command) -> Command {
    let mut wire: Vec<u8> = Vec::new();
    command.encode_frame_to(&mut wire);
    let (decoded, consumed) = decode_frame(&wire, MAX_FRAME).unwrap().unwrap();
    assert_eq!(consumed, wire.len());
    decoded
}

#[test]
fn bind_enquire_unbind_session() {
    // The client binds as transceiver at sequence 1, pings at 2, unbinds
    // at 3; the server answers each with status 0 under the same sequence
    // number; the session ends closed with no errors.
    let mut state = SessionState::Open;
    let mut counter = SequenceCounter::new();

    // bind_transceiver / bind_transceiver_resp
    let seq = counter.allocate().unwrap();
    assert_eq!(seq, 1);
    let bind = Command::new(
        CommandId::BindTransceiver,
        0,
        seq,
        Pdu::BindTransceiver(test_bind("test", "pw")),
    );
    let at_server = round_trip(&bind);
    assert_eq!(at_server.id(), CommandId::BindTransceiver);
    assert_eq!(at_server.sequence_number(), 1);
    match at_server.pdu().unwrap() {
        Pdu::BindTransceiver(b) => {
            assert_eq!(b.system_id.as_bytes(), b"test\0");
            assert_eq!(b.password.as_bytes(), b"pw\0");
        }
        other => panic!("not a bind: {:?}", other),
    }
    let resp = Command::new(
        CommandId::BindTransceiverResp,
        0,
        at_server.sequence_number(),
        Pdu::BindTransceiverResp(BindResp::new(c_octet("server"), None)),
    );
    let at_client = round_trip(&resp);
    assert_eq!(at_client.status(), 0);
    assert_eq!(at_client.sequence_number(), 1);
    state = transition(state, SessionEvent::BindSucceeded(BindMode::Trx));
    assert_eq!(state, SessionState::BoundTrx);

    // enquire_link / enquire_link_resp
    let seq = counter.allocate().unwrap();
    assert_eq!(seq, 2);
    let ping = Command::new(CommandId::EnquireLink, 0, seq, Pdu::EnquireLink);
    let at_server = round_trip(&ping);
    assert_eq!(at_server.id(), CommandId::EnquireLink);
    assert_eq!(at_server.sequence_number(), 2);
    let pong = Command::new(
        CommandId::EnquireLinkResp,
        0,
        at_server.sequence_number(),
        Pdu::EnquireLinkResp,
    );
    let at_client = round_trip(&pong);
    assert_eq!(at_client.sequence_number(), 2);
    assert_eq!(at_client.status(), 0);

    // unbind / unbind_resp
    let seq = counter.allocate().unwrap();
    assert_eq!(seq, 3);
    let unbind = Command::new(CommandId::Unbind, 0, seq, Pdu::Unbind);
    let at_server = round_trip(&unbind);
    assert_eq!(at_server.id(), CommandId::Unbind);
    assert_eq!(at_server.sequence_number(), 3);
    state = transition(state, SessionEvent::UnbindRequested);
    assert_eq!(state, SessionState::Unbound);
    let resp = Command::new(CommandId::UnbindResp, 0, 3, Pdu::UnbindResp);
    let at_client = round_trip(&resp);
    assert_eq!(at_client.sequence_number(), 3);
    state = transition(state, SessionEvent::UnbindResponded);
    assert_eq!(state, SessionState::Closed);
}

#[test]
fn submit_sm_with_short_message() {
    // submit_sm with inline text: on the wire sm_length is 2, the text
    // bytes follow, and no message_payload TLV is present.
    let pdu = submit("111", "222", b"hi", Vec::new());
    assert_eq!(pdu.sm_length(), 2);
    let body_len = pdu.length();
    let command = Command::new(CommandId::SubmitSm, 0, 4, Pdu::SubmitSm(pdu));
    let mut wire: Vec<u8> = Vec::new();
    command.encode_frame_to(&mut wire);
    assert_eq!(wire.len(), 16 + body_len);

    // sm_length and the text are the last three body bytes; no TLV follows.
    assert_eq!(&wire[wire.len() - 3..], &[2, 0x68, 0x69]);

    let (at_server, _) = decode_frame(&wire, MAX_FRAME).unwrap().unwrap();
    assert_eq!(at_server.sequence_number(), 4);
    match at_server.pdu().unwrap() {
        Pdu::SubmitSm(s) => {
            assert_eq!(s.sm_length(), 2);
            assert_eq!(s.short_message().as_bytes(), b"hi");
            assert!(s.tlvs().is_empty());
        }
        other => panic!("not a submit_sm: {:?}", other),
    }

    // submit_sm_resp with the assigned message id, same sequence number.
    let resp = Command::new(
        CommandId::SubmitSmResp,
        0,
        at_server.sequence_number(),
        Pdu::SubmitSmResp(SubmitSmResp::new(c_octet("MSG1"), Vec::new())),
    );
    let at_client = round_trip(&resp);
    assert_eq!(at_client.status(), 0);
    assert_eq!(at_client.sequence_number(), 4);
    match at_client.pdu().unwrap() {
        Pdu::SubmitSmResp(r) => assert_eq!(r.message_id.as_bytes(), b"MSG1\0"),
        other => panic!("not a submit_sm_resp: {:?}", other),
    }
}

#[test]
fn submit_sm_with_message_payload_tlv() {
    // As above, but the text travels in a 500-byte message_payload TLV:
    // sm_length is 0 and the TLV header says tag 0x0424, length 0x01F4.
    let payload = vec![0x41u8; 500];
    let tlv = Tlv::new(TlvValue::MessagePayload(MessagePayload::new(
        AnyOctetString::new(payload.clone()),
    )));
    let pdu = submit("111", "222", b"", vec![tlv]);
    assert_eq!(pdu.sm_length(), 0);

    let command = Command::new(CommandId::SubmitSm, 0, 5, Pdu::SubmitSm(pdu));
    let mut wire: Vec<u8> = Vec::new();
    command.encode_frame_to(&mut wire);

    // The TLV occupies the last 504 bytes: 2-byte tag, 2-byte length, value.
    let tlv_wire = &wire[wire.len() - 504..];
    assert_eq!(&tlv_wire[..4], &[0x04, 0x24, 0x01, 0xF4]);
    assert_eq!(&tlv_wire[4..], &payload[..]);

    let (at_server, _) = decode_frame(&wire, MAX_FRAME).unwrap().unwrap();
    match at_server.pdu().unwrap() {
        Pdu::SubmitSm(s) => {
            assert_eq!(s.sm_length(), 0);
            assert!(s.short_message().is_empty());
            assert_eq!(s.tlvs().len(), 1);
            assert_eq!(s.tlvs()[0].tag(), TlvTag::MessagePayload);
            assert_eq!(s.tlvs()[0].value_length(), 0x01F4);
        }
        other => panic!("not a submit_sm: {:?}", other),
    }
}

#[test]
fn submit_sm_try_new_mutual_exclusion() {
    // A non-empty short_message next to a message_payload TLV is refused
    // at construction; every other combination is accepted.
    let payload_tlv = || {
        Tlv::new(TlvValue::MessagePayload(MessagePayload::new(
            AnyOctetString::new(b"y".to_vec()),
        )))
    };
    let refused = SubmitSm::try_new(
        c_octet(""),
        Ton::Unknown,
        Npi::Unknown,
        c_octet("111"),
        Ton::Unknown,
        Npi::Unknown,
        c_octet("222"),
        0,
        0,
        0,
        EmptyOrFullCOctetString::empty(),
        EmptyOrFullCOctetString::empty(),
        RegisteredDelivery::default(),
        0,
        0,
        0,
        OctetString::new(b"x".to_vec()).unwrap(),
        vec![payload_tlv()],
    );
    assert!(refused.is_none());

    let with_text_only = SubmitSm::try_new(
        c_octet(""),
        Ton::Unknown,
        Npi::Unknown,
        c_octet("111"),
        Ton::Unknown,
        Npi::Unknown,
        c_octet("222"),
        0,
        0,
        0,
        EmptyOrFullCOctetString::empty(),
        EmptyOrFullCOctetString::empty(),
        RegisteredDelivery::default(),
        0,
        0,
        0,
        OctetString::new(b"x".to_vec()).unwrap(),
        Vec::new(),
    );
    assert!(with_text_only.is_some());

    let with_payload_only = SubmitSm::try_new(
        c_octet(""),
        Ton::Unknown,
        Npi::Unknown,
        c_octet("111"),
        Ton::Unknown,
        Npi::Unknown,
        c_octet("222"),
        0,
        0,
        0,
        EmptyOrFullCOctetString::empty(),
        EmptyOrFullCOctetString::empty(),
        RegisteredDelivery::default(),
        0,
        0,
        0,
        OctetString::empty(),
        vec![payload_tlv()],
    );
    assert!(with_payload_only.is_some());
}

#[test]
fn unknown_tlv_passes_through() {
    // A TLV with tag 0x1400, unknown to the registry, keeps its three
    // value bytes through a decode and re-encodes byte-identically.
    let wire = [0x14u8, 0x00, 0x00, 0x03, 0xAA, 0xBB, 0xCC];
    let (tlv, consumed) = Tlv::decode(&wire).unwrap();
    assert_eq!(consumed, wire.len());
    assert_eq!(tlv.tag(), TlvTag::Other(0x1400));
    assert_eq!(tlv.value_length(), 3);
    match tlv.value() {
        TlvValue::Other { tag, value } => {
            assert_eq!(*tag, TlvTag::Other(0x1400));
            assert_eq!(value.as_bytes(), &[0xAA, 0xBB, 0xCC]);
        }
        other => panic!("unexpected typed value: {:?}", other),
    }
    let mut reencoded: Vec<u8> = Vec::new();
    tlv.encode_to(&mut reencoded);
    assert_eq!(&reencoded[..], &wire[..]);

    // The same TLV at the tail of a PDU body survives the PDU round trip.
    let pdu = smpp_core::pdus::replace_sm::ReplaceSm::builder().build();
    let mut body: Vec<u8> = Vec::new();
    pdu.encode_to(&mut body);
    body.extend_from_slice(&wire);
    let (decoded, consumed) =
        smpp_core::pdus::replace_sm::ReplaceSm::decode(&body).unwrap();
    assert_eq!(consumed, body.len());
    let kept = decoded.message_payload_tlv().unwrap();
    assert_eq!(kept.tag(), TlvTag::Other(0x1400));
    let mut rebody: Vec<u8> = Vec::new();
    decoded.encode_to(&mut rebody);
    assert_eq!(rebody, body);
}

#[test]
fn concatenated_udh_parse() {
    // UDH length 5; IEI 0x00 (8-bit concatenation), length 3,
    // reference 0x42, 3 parts in total, this is part 2; payload follows.
    let short_message = [0x05u8, 0x00, 0x03, 0x42, 0x03, 0x02, 0x68, 0x69];
    let (udh, consumed) = Udh::decode(&short_message).unwrap();
    assert_eq!(consumed, 6);
    assert_eq!(udh.elements.len(), 1);
    let concat = ConcatenatedShortMessage::find_in_udh(&udh).unwrap().unwrap();
    assert_eq!(
        concat,
        ConcatenatedShortMessage { reference: 0x42, total_parts: 3, part_number: 2 }
    );

    // total parts zero is refused
    let err = ConcatenatedShortMessage::from_information_element(0x00, &[0x42, 0x00, 0x02])
        .unwrap_err();
    assert!(matches!(err, ConcatenatedShortMessageDecodeError::TotalPartsZero));

    // part number zero is refused
    let err = ConcatenatedShortMessage::from_information_element(0x00, &[0x42, 0x03, 0x00])
        .unwrap_err();
    assert!(matches!(err, ConcatenatedShortMessageDecodeError::PartNumberZero));

    // a part number over the total is refused
    let err = ConcatenatedShortMessage::from_information_element(0x00, &[0x42, 0x03, 0x04])
        .unwrap_err();
    assert!(matches!(
        err,
        ConcatenatedShortMessageDecodeError::PartNumberExceedsTotalParts {
            part_number: 4,
            total_parts: 3,
        }
    ));

    // a declared length the element kind does not take is refused
    let err =
        ConcatenatedShortMessage::from_information_element(0x00, &[0x42, 0x03]).unwrap_err();
    assert!(matches!(
        err,
        ConcatenatedShortMessageDecodeError::InvalidInformationElementLength {
            actual: 2,
            expected: 3,
        }
    ));

    // the 16-bit form carries a two-byte reference
    let concat = ConcatenatedShortMessage::from_information_element(0x08, &[0x01, 0x02, 0x05, 0x05])
        .unwrap()
        .unwrap();
    assert_eq!(
        concat,
        ConcatenatedShortMessage { reference: 0x0102, total_parts: 5, part_number: 5 }
    );
}

#[test]
fn bounded_tlv_array() {
    // two unknown TLVs back to back
    let wire = [
        0x14u8, 0x00, 0x00, 0x01, 0xAA, // tag 0x1400, one byte
        0x14, 0x01, 0x00, 0x02, 0xBB, 0xCC, // tag 0x1401, two bytes
    ];
    let tlvs = decode_tlvs_bounded(&wire, 2).unwrap();
    assert_eq!(tlvs.len(), 2);
    assert_eq!(tlvs[0].tag(), TlvTag::Other(0x1400));
    assert_eq!(tlvs[1].tag(), TlvTag::Other(0x1401));

    // the same bytes against a capacity of one are refused
    let err = decode_tlvs_bounded(&wire, 1).unwrap_err();
    assert!(matches!(
        err.kind(),
        DecodeErrorKind::HeaplessVecDecodeError(HeaplessVecDecodeError::TooManyElements {
            max: 1
        })
    ));
}

#[test]
fn submit_sm_set_short_message_drops_payload_tlv() {
    // an unrelated TLV and a message_payload TLV
    let (other, _) = Tlv::decode(&[0x14, 0x00, 0x00, 0x01, 0xAA]).unwrap();
    let payload = Tlv::new(TlvValue::MessagePayload(MessagePayload::new(
        AnyOctetString::new(b"y".to_vec()),
    )));
    let mut pdu = submit("111", "222", b"", vec![other.clone(), payload]);
    assert!(pdu.message_payload_exists());

    // setting the inline text drops the payload TLV and keeps the rest
    pdu.set_short_message(OctetString::new(b"hi".to_vec()).unwrap());
    assert!(!pdu.message_payload_exists());
    assert_eq!(pdu.sm_length(), 2);
    assert_eq!(pdu.tlvs().len(), 1);
    assert_eq!(pdu.tlvs()[0], other);
}
