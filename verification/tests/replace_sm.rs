use smpp_core::pdus::replace_sm::ReplaceSm;
use smpp_core::strings::AnyOctetString;
use smpp_core::strings::COctetString;
use smpp_core::strings::EmptyOrFullCOctetString;
use smpp_core::strings::OctetString;
use smpp_core::tlv::MessagePayload;
use smpp_core::values::Npi;
use smpp_core::values::RegisteredDelivery;
use smpp_core::values::Ton;

fn c_octet<const MIN: usize, const MAX: usize>(s: &str) -> COctetString<MIN, MAX> {
    COctetString::from_ascii(s.as_bytes()).unwrap()
}

fn time_17() -> EmptyOrFullCOctetString<17> {
    EmptyOrFullCOctetString::new(b"2023-10-01T12:00\0".to_vec()).unwrap()
}

fn instances() -> Vec<ReplaceSm> {
    vec![
        ReplaceSm::builder().build(),
        ReplaceSm::builder()
            .message_id(c_octet("123456789012345678901234"))
            .source_addr_ton(Ton::International)
            .source_addr_npi(Npi::Isdn)
            .source_addr(c_octet("Source Addr"))
            .schedule_delivery_time(time_17())
            .validity_period(time_17())
            .registered_delivery(RegisteredDelivery::default())
            .sm_default_msg_id(0)
            .short_message(OctetString::new(b"Short Message".to_vec()).unwrap())
            .build(),
        ReplaceSm::builder()
            .message_id(c_octet("123456789012345678901234"))
            .source_addr_ton(Ton::International)
            .source_addr_npi(Npi::Isdn)
            .source_addr(c_octet("Source Addr"))
            .schedule_delivery_time(time_17())
            .validity_period(time_17())
            .registered_delivery(RegisteredDelivery::default())
            .sm_default_msg_id(0)
            .message_payload(Some(MessagePayload::new(AnyOctetString::new(
                b"Message Payload".to_vec(),
            ))))
            .build(),
        ReplaceSm::builder()
            .validity_period(time_17())
            .short_message(OctetString::new(b"Short Message".to_vec()).unwrap())
            .message_payload(Some(MessagePayload::new(AnyOctetString::new(
                b"Message Payload".to_vec(),
            ))))
            .build(),
    ]
}

#[test]
fn replace_sm_encode_decode() {
    for instance in instances() {
        let mut encoded: Vec<u8> = Vec::new();
        instance.encode_to(&mut encoded);
        assert_eq!(encoded.len(), instance.length());
        let (decoded, consumed) = ReplaceSm::decode(&encoded).unwrap();
        assert_eq!(consumed, encoded.len());
        assert_eq!(decoded, instance);
    }
}

#[test]
fn short_message_length() {
    let short_message = OctetString::<0, 255>::new(b"Short Message".to_vec()).unwrap();

    let submit_sm = ReplaceSm::builder()
        .short_message(short_message.clone())
        .build();

    assert_eq!(submit_sm.short_message(), &short_message);
    assert_eq!(submit_sm.sm_length() as usize, short_message.length());
}

#[test]
fn try_new() {
    // Refused when both short_message and message_payload are set
    let replace_sm = ReplaceSm::try_new(
        c_octet("123456789012345678901234"),
        Ton::International,
        Npi::Isdn,
        c_octet("Source Addr"),
        time_17(),
        time_17(),
        RegisteredDelivery::default(),
        0,
        OctetString::new(b"Short Message".to_vec()).unwrap(),
        Some(MessagePayload::new(AnyOctetString::new(
            b"Message Payload".to_vec(),
        ))),
    );

    assert!(replace_sm.is_none());

    // Accepted when only short_message is set
    let replace_sm = ReplaceSm::try_new(
        c_octet("123456789012345678901234"),
        Ton::International,
        Npi::Isdn,
        c_octet("Source Addr"),
        time_17(),
        time_17(),
        RegisteredDelivery::default(),
        0,
        OctetString::new(b"Short Message".to_vec()).unwrap(),
        None,
    );

    assert!(replace_sm.is_some());

    // Accepted when only message_payload is set
    let replace_sm = ReplaceSm::try_new(
        c_octet("123456789012345678901234"),
        Ton::International,
        Npi::Isdn,
        c_octet("Source Addr"),
        time_17(),
        time_17(),
        RegisteredDelivery::default(),
        0,
        OctetString::empty(),
        Some(MessagePayload::new(AnyOctetString::new(
            b"Message Payload".to_vec(),
        ))),
    );

    assert!(replace_sm.is_some());
}

#[test]
fn try_set_short_message() {
    let mut replace_sm = ReplaceSm::builder()
        .message_payload(Some(MessagePayload::new(AnyOctetString::new(
            b"Message Payload".to_vec(),
        ))))
        .build();

    // Refused while the message_payload TLV is set
    let result =
        replace_sm.try_set_short_message(OctetString::new(b"Short Message".to_vec()).unwrap());

    assert!(!result);

    // Accepted once the message_payload TLV is gone
    replace_sm.set_message_payload(None);

    let result =
        replace_sm.try_set_short_message(OctetString::new(b"Short Message".to_vec()).unwrap());

    assert!(result);
}

#[test]
fn try_set_message_payload() {
    let mut replace_sm = ReplaceSm::builder()
        .short_message(OctetString::new(b"Short Message".to_vec()).unwrap())
        .build();

    // Refused while the short_message is set
    let result = replace_sm.try_set_message_payload(Some(MessagePayload::new(
        AnyOctetString::new(b"Message Payload".to_vec()),
    )));

    assert!(!result);

    // Accepted once the short_message is cleared
    replace_sm.clear_short_message();

    let result = replace_sm.try_set_message_payload(Some(MessagePayload::new(
        AnyOctetString::new(b"Message Payload".to_vec()),
    )));

    assert!(result);
}

#[test]
fn setters_keep_text_carriers_exclusive() {
    // setting the text drops a payload TLV that was present
    let mut pdu = ReplaceSm::builder()
        .message_payload(Some(MessagePayload::new(AnyOctetString::new(
            b"Message Payload".to_vec(),
        ))))
        .build();
    pdu.set_short_message(OctetString::new(b"Short Message".to_vec()).unwrap());
    assert_eq!(pdu.sm_length() as usize, 13);
    assert!(pdu.message_payload_tlv().is_none());

    // setting a payload empties the text
    let mut pdu = ReplaceSm::builder()
        .short_message(OctetString::new(b"Short Message".to_vec()).unwrap())
        .build();
    pdu.set_message_payload(Some(MessagePayload::new(AnyOctetString::new(
        b"Message Payload".to_vec(),
    ))));
    assert!(pdu.short_message().is_empty());
    assert_eq!(pdu.sm_length(), 0);
    assert!(pdu.message_payload_tlv().is_some());

    // clearing the payload leaves the text alone
    let mut pdu = ReplaceSm::builder()
        .short_message(OctetString::new(b"hi".to_vec()).unwrap())
        .build();
    pdu.set_message_payload(None);
    assert_eq!(pdu.short_message().as_bytes(), b"hi");
    assert!(pdu.message_payload_tlv().is_none());
}
