//! Unit tests of the primitive codecs and their error cases.

use smpp_core::codec::decode_u16;
use smpp_core::codec::decode_u32;
use smpp_core::codec::decode_u8;
use smpp_core::codec::encode_u16_to;
use smpp_core::codec::encode_u32_to;
use smpp_core::errors::COctetStringDecodeError;
use smpp_core::errors::IntegerDecodeError;
use smpp_core::errors::OctetStringDecodeError;
use smpp_core::errors::AnyOctetStringDecodeError;
use smpp_core::strings::AnyOctetString;
use smpp_core::strings::COctetString;
use smpp_core::strings::EmptyOrFullCOctetString;
use smpp_core::strings::OctetString;
use smpp_core::errors::DecodeError;
use smpp_core::errors::DecodeResultExt;
use smpp_core::text::decimal_string;
use smpp_core::errors::DecodeErrorKind;
use smpp_core::errors::HeaplessVecDecodeError;
use smpp_core::errors::UdhDecodeError;
use smpp_core::errors::ConcatenatedShortMessageDecodeError;
use smpp_core::values::DestFlag;
use smpp_core::values::Npi;
use smpp_core::values::Ton;

#[test]
fn integer_round_trips() {
    let mut buf: Vec<u8> = Vec::new();
    encode_u16_to(0x0424, &mut buf);
    assert_eq!(&buf[..], &[0x04, 0x24]);
    assert_eq!(decode_u16(&buf).unwrap(), (0x0424, 2));

    let mut buf: Vec<u8> = Vec::new();
    encode_u32_to(0x80000009, &mut buf);
    assert_eq!(&buf[..], &[0x80, 0x00, 0x00, 0x09]);
    assert_eq!(decode_u32(&buf).unwrap(), (0x80000009, 4));

    assert_eq!(decode_u8(&[]).unwrap_err(), IntegerDecodeError::UnexpectedEof);
    assert_eq!(decode_u16(&[1]).unwrap_err(), IntegerDecodeError::UnexpectedEof);
    assert_eq!(decode_u32(&[1, 2, 3]).unwrap_err(), IntegerDecodeError::UnexpectedEof);
}

#[test]
fn c_octet_string_decode_cases() {
    // a valid NUL-terminated ASCII string, with trailing bytes left alone
    let (v, n) = COctetString::<1, 16>::decode(b"test\0rest").unwrap();
    assert_eq!(n, 5);
    assert_eq!(v.as_bytes(), b"test\0");
    assert_eq!(v.length(), 5);

    // a byte with the high bit set before the terminator
    let err = COctetString::<1, 16>::decode(&[0x74, 0xC3, 0x00]).unwrap_err();
    assert!(matches!(err, COctetStringDecodeError::NotAscii));

    // no terminator within the first MAX bytes
    let err = COctetString::<1, 4>::decode(b"abcdefgh").unwrap_err();
    assert!(matches!(err, COctetStringDecodeError::NotNullTerminated));

    // the buffer runs out before a terminator is found
    let err = COctetString::<1, 16>::decode(b"abc").unwrap_err();
    assert!(matches!(err, COctetStringDecodeError::UnexpectedEof));

    // fewer total bytes than MIN
    let err = COctetString::<6, 16>::decode(b"abc\0").unwrap_err();
    assert!(matches!(err, COctetStringDecodeError::TooFewBytes { actual: 4, min: 6 }));

    // content validation at construction
    assert!(COctetString::<1, 6>::from_ascii(b"hello").is_some());
    assert!(COctetString::<1, 6>::from_ascii(b"toolong").is_none());
    assert!(COctetString::<1, 6>::from_ascii(&[0xFF]).is_none());
    assert!(COctetString::<1, 6>::new(b"no terminator".to_vec()).is_none());
}

#[test]
fn empty_or_full_c_octet_string_decode_cases() {
    // the empty form: a lone NUL
    let (v, n) = EmptyOrFullCOctetString::<17>::decode(b"\0tail").unwrap();
    assert_eq!(n, 1);
    assert_eq!(v.as_bytes(), b"\0");

    // the full form: exactly MAX bytes with the terminator
    let (v, n) = EmptyOrFullCOctetString::<17>::decode(b"2023-10-01T12:00\0").unwrap();
    assert_eq!(n, 17);
    assert_eq!(v.length(), 17);

    // a terminator too early for the full form
    let err = EmptyOrFullCOctetString::<17>::decode(b"2023\0").unwrap_err();
    assert!(matches!(err, COctetStringDecodeError::TooFewBytes { actual: 5, min: 17 }));

    // neither empty nor full is accepted at construction
    assert!(EmptyOrFullCOctetString::<17>::new(b"2023\0".to_vec()).is_none());
    assert!(EmptyOrFullCOctetString::<17>::new(b"2023-10-01T12:00\0".to_vec()).is_some());
    assert!(EmptyOrFullCOctetString::<17>::new(b"\0".to_vec()).is_some());
}

#[test]
fn octet_string_decode_cases() {
    // reads exactly the requested count and leaves the rest
    let (v, n) = OctetString::<0, 255>::decode(b"hello world", 5).unwrap();
    assert_eq!(n, 5);
    assert_eq!(v.as_bytes(), b"hello");

    // a count over MAX
    let err = OctetString::<0, 4>::decode(b"hello", 5).unwrap_err();
    assert!(matches!(err, OctetStringDecodeError::TooManyBytes { actual: 5, max: 4 }));

    // a count under MIN
    let err = OctetString::<3, 10>::decode(b"hello", 2).unwrap_err();
    assert!(matches!(err, OctetStringDecodeError::TooFewBytes { actual: 2, min: 3 }));

    // a count past the end of the buffer
    let err = OctetString::<0, 255>::decode(b"hi", 3).unwrap_err();
    assert!(matches!(err, OctetStringDecodeError::UnexpectedEof));

    // the untyped tail fails only on underrun
    let (v, n) = AnyOctetString::decode(b"abc", 3).unwrap();
    assert_eq!(n, 3);
    assert_eq!(v.as_bytes(), b"abc");
    let err = AnyOctetString::decode(b"abc", 4).unwrap_err();
    assert!(matches!(err, AnyOctetStringDecodeError::UnexpectedEof));
}

#[test]
fn decode_error_constructors() {
    let e = DecodeError::integer_decode_error(IntegerDecodeError::UnexpectedEof);
    assert!(matches!(e.kind(), DecodeErrorKind::IntegerDecodeError(_)));

    let e = DecodeError::c_octet_string_decode_error(COctetStringDecodeError::NotAscii);
    assert!(matches!(e.kind(), DecodeErrorKind::COctetStringDecodeError(_)));

    let e = DecodeError::octet_string_decode_error(OctetStringDecodeError::UnexpectedEof);
    assert!(matches!(e.kind(), DecodeErrorKind::OctetStringDecodeError(_)));

    let e = DecodeError::any_octet_string_decode_error(AnyOctetStringDecodeError::UnexpectedEof);
    assert!(matches!(e.kind(), DecodeErrorKind::AnyOctetStringDecodeError(_)));

    let e = DecodeError::heapless_vec_decode_error(HeaplessVecDecodeError::TooManyElements {
        max: 16,
    });
    assert!(matches!(e.kind(), DecodeErrorKind::HeaplessVecDecodeError(_)));

    let e = DecodeError::unsupported_key(7);
    assert!(matches!(e.kind(), DecodeErrorKind::UnsupportedKey { key: 7 }));

    let e = DecodeError::udh_decode_error(UdhDecodeError::ConcatenatedShortMessageDecodeError(
        ConcatenatedShortMessageDecodeError::TotalPartsZero,
    ));
    assert!(matches!(e.kind(), DecodeErrorKind::UdhDecodeError(_)));

    let e = DecodeError::concatenated_short_message_decode_error(
        ConcatenatedShortMessageDecodeError::PartNumberZero,
    );
    assert!(matches!(
        e.kind(),
        DecodeErrorKind::UdhDecodeError(UdhDecodeError::ConcatenatedShortMessageDecodeError(
            ConcatenatedShortMessageDecodeError::PartNumberZero
        ))
    ));

    let e = DecodeError::new(DecodeErrorKind::UnsupportedKey { key: 1 });
    assert_eq!(e.kind(), DecodeErrorKind::UnsupportedKey { key: 1 });
}

#[test]
fn value_byte_mappings() {
    assert_eq!(Ton::from_u8(1), Ton::International);
    assert_eq!(Ton::International.to_u8(), 1);
    assert_eq!(Ton::from_u8(0x42), Ton::Other(0x42));
    assert_eq!(Ton::Other(0x42).to_u8(), 0x42);

    assert_eq!(Npi::from_u8(1), Npi::Isdn);
    assert_eq!(Npi::from_u8(18), Npi::WapClientId);
    assert_eq!(Npi::from_u8(2), Npi::Other(2));

    assert_eq!(DestFlag::from_u8(1), DestFlag::SmeAddress);
    assert_eq!(DestFlag::from_u8(2), DestFlag::DistributionListName);
    assert_eq!(DestFlag::from_u8(9), DestFlag::Other(9));
}

#[test]
fn error_messages_render() {
    let e = COctetStringDecodeError::TooFewBytes { actual: 4, min: 6 };
    assert_eq!(e.message(), "Too few bytes. actual: 4, min: 6");

    let e = OctetStringDecodeError::TooManyBytes { actual: 300, max: 255 };
    assert_eq!(e.message(), "Too many bytes. actual: 300, max: 255");

    let e = ConcatenatedShortMessageDecodeError::PartNumberExceedsTotalParts {
        part_number: 4,
        total_parts: 3,
    };
    assert_eq!(e.message(), "Part number 4 exceeds total parts 3");

    let e = DecodeError::unsupported_key(1049600);
    assert_eq!(
        e.message(),
        "Decode error. kind: Unsupported key: 1049600"
    );

    let e = DecodeError::concatenated_short_message_decode_error(
        ConcatenatedShortMessageDecodeError::TotalPartsZero,
    );
    assert_eq!(
        e.kind().message(),
        "UDH decode error: ConcatenatedShortMessage decode error: Total parts cannot be zero"
    );
}

#[test]
fn map_decoded_keeps_size() {
    let r: Result<(u8, usize), IntegerDecodeError> = Ok((7, 1));
    assert_eq!(r.map_decoded(|x| x as u16 + 1), Ok((8u16, 1)));

    let r: Result<(u8, usize), IntegerDecodeError> = Err(IntegerDecodeError::UnexpectedEof);
    assert_eq!(r.map_decoded(|x| x), Err(IntegerDecodeError::UnexpectedEof));
}

#[test]
fn decimal_rendering() {
    assert_eq!(decimal_string(0), "0");
    assert_eq!(decimal_string(7), "7");
    assert_eq!(decimal_string(10), "10");
    assert_eq!(decimal_string(65537), "65537");
    assert_eq!(decimal_string(u64::MAX), "18446744073709551615");
}
