use smpp_core::borrowed::COctetString as BorrowedCOctetString;
use smpp_core::dest_address::borrowed::DestAddress as BorrowedDestAddress;
use smpp_core::dest_address::borrowed::DestAddressValue as BorrowedDestAddressValue;
use smpp_core::dest_address::borrowed::DistributionListName as BorrowedDistributionListName;
use smpp_core::dest_address::borrowed::SmeAddress as BorrowedSmeAddress;
use smpp_core::dest_address::owned::DestAddress;
use smpp_core::dest_address::owned::DestAddressValue;
use smpp_core::dest_address::owned::DistributionListName;
use smpp_core::dest_address::owned::SmeAddress;
use smpp_core::errors::DecodeErrorKind;
use smpp_core::strings::COctetString;
use smpp_core::values::Npi;
use smpp_core::values::Ton;

#[test]
fn borrowed_encode_decode() {
    let backing = b"1234567890123456789\0";

    let instances = vec![
        BorrowedDestAddress::new(BorrowedDestAddressValue::SmeAddress(BorrowedSmeAddress::new(
            Ton::International,
            Npi::Isdn,
            BorrowedCOctetString::new(backing).unwrap(),
        ))),
        BorrowedDestAddress::new(BorrowedDestAddressValue::DistributionListName(
            BorrowedDistributionListName::new(BorrowedCOctetString::new(backing).unwrap()),
        )),
    ];
    for instance in instances {
        let mut encoded: Vec<u8> = Vec::new();
        instance.encode_to(&mut encoded);
        assert_eq!(encoded.len(), instance.length());
        let (decoded, consumed) = BorrowedDestAddress::decode(&encoded).unwrap();
        assert_eq!(consumed, encoded.len());
        assert_eq!(decoded, instance);
    }

    let sme = BorrowedSmeAddress::new(
        Ton::International,
        Npi::Isdn,
        BorrowedCOctetString::new(backing).unwrap(),
    );
    let mut encoded: Vec<u8> = Vec::new();
    sme.encode_to(&mut encoded);
    let (decoded, consumed) = BorrowedSmeAddress::decode(&encoded).unwrap();
    assert_eq!(consumed, encoded.len());
    assert_eq!(decoded, sme);

    let dlm = BorrowedDistributionListName::new(BorrowedCOctetString::new(backing).unwrap());
    let mut encoded: Vec<u8> = Vec::new();
    dlm.encode_to(&mut encoded);
    let (decoded, consumed) = BorrowedDistributionListName::decode(&encoded).unwrap();
    assert_eq!(consumed, encoded.len());
    assert_eq!(decoded, dlm);
}

#[test]
fn owned_encode_decode() {
    let addr = || COctetString::<1, 21>::new(b"1234567890123456789\0".to_vec()).unwrap();

    let instances = vec![
        DestAddress::new(DestAddressValue::SmeAddress(SmeAddress::new(
            Ton::International,
            Npi::Isdn,
            addr(),
        ))),
        DestAddress::new(DestAddressValue::DistributionListName(
            DistributionListName::new(addr()),
        )),
    ];
    for instance in instances {
        let mut encoded: Vec<u8> = Vec::new();
        instance.encode_to(&mut encoded);
        assert_eq!(encoded.len(), instance.length());
        let (decoded, consumed) = DestAddress::decode(&encoded).unwrap();
        assert_eq!(consumed, encoded.len());
        assert_eq!(decoded, instance);
    }

    let sme = SmeAddress::new(Ton::International, Npi::Isdn, addr());
    let mut encoded: Vec<u8> = Vec::new();
    sme.encode_to(&mut encoded);
    let (decoded, consumed) = SmeAddress::decode(&encoded).unwrap();
    assert_eq!(consumed, encoded.len());
    assert_eq!(decoded, sme);

    let dlm = DistributionListName::new(addr());
    let mut encoded: Vec<u8> = Vec::new();
    dlm.encode_to(&mut encoded);
    let (decoded, consumed) = DistributionListName::decode(&encoded).unwrap();
    assert_eq!(consumed, encoded.len());
    assert_eq!(decoded, dlm);
}

#[test]
fn unknown_dest_flag_is_unsupported_key() {
    // flag 0x03 is neither an SME address nor a distribution list
    let bytes = [0x03u8, 0x31, 0x00];
    let err = DestAddress::decode(&bytes).unwrap_err();
    assert!(matches!(
        err.kind(),
        DecodeErrorKind::UnsupportedKey { key: 3 }
    ));
}
