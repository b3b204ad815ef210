//! Errors that can occur when decoding SMPP values.

use vstd::prelude::*;
use vstd::string::StringExecFns;

use crate::text::append_decimal;
use crate::text::spec_decimal;

verus! {

/// An error that can occur when decoding SMPP values.
#[derive(Debug, Copy, Clone, PartialEq, Eq, Structural)]
pub struct DecodeError {
    pub kind: DecodeErrorKind,
}

impl DecodeError {
    /// Spec-level forms of the wrapping constructors below, for use in the
    /// decoders' specifications.
    pub open spec fn spec_integer(error: IntegerDecodeError) -> DecodeError {
        DecodeError { kind: DecodeErrorKind::IntegerDecodeError(error) }
    }

    pub open spec fn spec_c_octet(error: COctetStringDecodeError) -> DecodeError {
        DecodeError { kind: DecodeErrorKind::COctetStringDecodeError(error) }
    }

    pub open spec fn spec_octet(error: OctetStringDecodeError) -> DecodeError {
        DecodeError { kind: DecodeErrorKind::OctetStringDecodeError(error) }
    }

    pub open spec fn spec_any_octet(error: AnyOctetStringDecodeError) -> DecodeError {
        DecodeError { kind: DecodeErrorKind::AnyOctetStringDecodeError(error) }
    }

    pub fn new(kind: DecodeErrorKind) -> (r: Self)
        ensures
            r.kind == kind,
    {
        Self { kind }
    }

    pub fn kind(&self) -> (r: DecodeErrorKind)
        ensures
            r == self.kind,
    {
        self.kind
    }

    pub fn integer_decode_error(error: IntegerDecodeError) -> (r: Self)
        ensures
            r.kind == DecodeErrorKind::IntegerDecodeError(error),
    {
        Self::new(DecodeErrorKind::IntegerDecodeError(error))
    }

    pub fn c_octet_string_decode_error(error: COctetStringDecodeError) -> (r: Self)
        ensures
            r.kind == DecodeErrorKind::COctetStringDecodeError(error),
    {
        Self::new(DecodeErrorKind::COctetStringDecodeError(error))
    }

    pub fn octet_string_decode_error(error: OctetStringDecodeError) -> (r: Self)
        ensures
            r.kind == DecodeErrorKind::OctetStringDecodeError(error),
    {
        Self::new(DecodeErrorKind::OctetStringDecodeError(error))
    }

    pub fn any_octet_string_decode_error(error: AnyOctetStringDecodeError) -> (r: Self)
        ensures
            r.kind == DecodeErrorKind::AnyOctetStringDecodeError(error),
    {
        Self::new(DecodeErrorKind::AnyOctetStringDecodeError(error))
    }

    pub fn heapless_vec_decode_error(error: HeaplessVecDecodeError) -> (r: Self)
        ensures
            r.kind == DecodeErrorKind::HeaplessVecDecodeError(error),
    {
        Self::new(DecodeErrorKind::HeaplessVecDecodeError(error))
    }

    pub fn unsupported_key(key: u32) -> (r: Self)
        ensures
            r.kind == (DecodeErrorKind::UnsupportedKey { key }),
    {
        Self::new(DecodeErrorKind::UnsupportedKey { key })
    }

    pub fn udh_decode_error(error: UdhDecodeError) -> (r: Self)
        ensures
            r.kind == DecodeErrorKind::UdhDecodeError(error),
    {
        Self::new(DecodeErrorKind::UdhDecodeError(error))
    }

    pub fn concatenated_short_message_decode_error(
        error: ConcatenatedShortMessageDecodeError,
    ) -> (r: Self)
        ensures
            r.kind == DecodeErrorKind::UdhDecodeError(
                UdhDecodeError::ConcatenatedShortMessageDecodeError(error),
            ),
    {
        Self::new(DecodeErrorKind::UdhDecodeError(
            UdhDecodeError::ConcatenatedShortMessageDecodeError(error),
        ))
    }
}

/// Kind of [`DecodeError`].
#[derive(Debug, Copy, Clone, PartialEq, Eq, Structural)]
pub enum DecodeErrorKind {
    IntegerDecodeError(IntegerDecodeError),
    COctetStringDecodeError(COctetStringDecodeError),
    OctetStringDecodeError(OctetStringDecodeError),
    AnyOctetStringDecodeError(AnyOctetStringDecodeError),
    HeaplessVecDecodeError(HeaplessVecDecodeError),
    UnsupportedKey { key: u32 },
    UdhDecodeError(UdhDecodeError),
}

/// An error that can occur when decoding an integer.
#[derive(Debug, Copy, Clone, PartialEq, Eq, Structural)]
pub enum IntegerDecodeError {
    UnexpectedEof,
}

/// An error that can occur when decoding a C-octet string.
#[derive(Debug, Copy, Clone, PartialEq, Eq, Structural)]
pub enum COctetStringDecodeError {
    TooFewBytes { actual: usize, min: usize },
    NotAscii,
    NotNullTerminated,
    UnexpectedEof,
}

/// An error that can occur when decoding an octet string.
#[derive(Debug, Copy, Clone, PartialEq, Eq, Structural)]
pub enum OctetStringDecodeError {
    TooManyBytes { actual: usize, max: usize },
    TooFewBytes { actual: usize, min: usize },
    UnexpectedEof,
}

/// An error that can occur when decoding an octet string without length bounds.
#[derive(Debug, Copy, Clone, PartialEq, Eq, Structural)]
pub enum AnyOctetStringDecodeError {
    UnexpectedEof,
}

/// An error that can occur when decoding a bounded vector of values.
#[derive(Debug, Copy, Clone, PartialEq, Eq, Structural)]
pub enum HeaplessVecDecodeError {
    UnexpectedEof,
    /// More elements were present than the fixed capacity admits.
    TooManyElements { max: usize },
}

/// An error that can occur when decoding a user data header.
#[derive(Debug, Copy, Clone, PartialEq, Eq, Structural)]
pub enum UdhDecodeError {
    ConcatenatedShortMessageDecodeError(ConcatenatedShortMessageDecodeError),
}

/// An error that can occur when decoding a concatenated-short-message
/// information element of a user data header.
#[derive(Debug, Copy, Clone, PartialEq, Eq, Structural)]
pub enum ConcatenatedShortMessageDecodeError {
    /// The declared length of the information element does not match the
    /// length its kind requires.
    InvalidInformationElementLength { actual: u8, expected: u8 },
    /// The total number of parts is zero.
    TotalPartsZero,
    /// The part number is zero.
    PartNumberZero,
    /// The part number exceeds the total number of parts.
    PartNumberExceedsTotalParts { part_number: u8, total_parts: u8 },
    TooFewBytes { actual: usize, min: usize },
}

impl IntegerDecodeError {
    /// What the error says when rendered for people.
    pub open spec fn spec_message(self) -> Seq<char> {
        "Unexpected end of buffer"@
    }

    /// Renders the error.
    pub fn message(&self) -> (r: String)
        ensures
            r@ == self.spec_message(),
    {
        String::from_str("Unexpected end of buffer")
    }
}

impl COctetStringDecodeError {
    /// What the error says when rendered for people.
    pub open spec fn spec_message(self) -> Seq<char> {
        match self {
            COctetStringDecodeError::TooFewBytes { actual, min } => "Too few bytes. actual: "@
                + spec_decimal(actual as int) + ", min: "@ + spec_decimal(min as int),
            COctetStringDecodeError::NotAscii => "Not ASCII"@,
            COctetStringDecodeError::NotNullTerminated => "Not null terminated"@,
            COctetStringDecodeError::UnexpectedEof => "Unexpected end of buffer"@,
        }
    }

    /// Renders the error.
    pub fn message(&self) -> (r: String)
        ensures
            r@ == self.spec_message(),
    {
        match self {
            COctetStringDecodeError::TooFewBytes { actual, min } => {
                let mut s = String::from_str("Too few bytes. actual: ");
                append_decimal(&mut s, *actual as u64);
                s.append(", min: ");
                append_decimal(&mut s, *min as u64);
                proof {
                    assert(s@ =~= self.spec_message());
                }
                s
            },
            COctetStringDecodeError::NotAscii => String::from_str("Not ASCII"),
            COctetStringDecodeError::NotNullTerminated => String::from_str("Not null terminated"),
            COctetStringDecodeError::UnexpectedEof => String::from_str("Unexpected end of buffer"),
        }
    }
}

impl OctetStringDecodeError {
    /// What the error says when rendered for people.
    pub open spec fn spec_message(self) -> Seq<char> {
        match self {
            OctetStringDecodeError::TooManyBytes { actual, max } => "Too many bytes. actual: "@
                + spec_decimal(actual as int) + ", max: "@ + spec_decimal(max as int),
            OctetStringDecodeError::TooFewBytes { actual, min } => "Too few bytes. actual: "@
                + spec_decimal(actual as int) + ", min: "@ + spec_decimal(min as int),
            OctetStringDecodeError::UnexpectedEof => "Unexpected end of buffer"@,
        }
    }

    /// Renders the error.
    pub fn message(&self) -> (r: String)
        ensures
            r@ == self.spec_message(),
    {
        match self {
            OctetStringDecodeError::TooManyBytes { actual, max } => {
                let mut s = String::from_str("Too many bytes. actual: ");
                append_decimal(&mut s, *actual as u64);
                s.append(", max: ");
                append_decimal(&mut s, *max as u64);
                proof {
                    assert(s@ =~= self.spec_message());
                }
                s
            },
            OctetStringDecodeError::TooFewBytes { actual, min } => {
                let mut s = String::from_str("Too few bytes. actual: ");
                append_decimal(&mut s, *actual as u64);
                s.append(", min: ");
                append_decimal(&mut s, *min as u64);
                proof {
                    assert(s@ =~= self.spec_message());
                }
                s
            },
            OctetStringDecodeError::UnexpectedEof => String::from_str("Unexpected end of buffer"),
        }
    }
}

impl AnyOctetStringDecodeError {
    /// What the error says when rendered for people.
    pub open spec fn spec_message(self) -> Seq<char> {
        "Unexpected end of buffer"@
    }

    /// Renders the error.
    pub fn message(&self) -> (r: String)
        ensures
            r@ == self.spec_message(),
    {
        String::from_str("Unexpected end of buffer")
    }
}

impl HeaplessVecDecodeError {
    /// What the error says when rendered for people.
    pub open spec fn spec_message(self) -> Seq<char> {
        match self {
            HeaplessVecDecodeError::UnexpectedEof => "Unexpected end of buffer"@,
            HeaplessVecDecodeError::TooManyElements { max } => "Too many elements. max: "@
                + spec_decimal(max as int),
        }
    }

    /// Renders the error.
    pub fn message(&self) -> (r: String)
        ensures
            r@ == self.spec_message(),
    {
        match self {
            HeaplessVecDecodeError::UnexpectedEof => String::from_str("Unexpected end of buffer"),
            HeaplessVecDecodeError::TooManyElements { max } => {
                let mut s = String::from_str("Too many elements. max: ");
                append_decimal(&mut s, *max as u64);
                s
            },
        }
    }
}

impl ConcatenatedShortMessageDecodeError {
    /// What the error says when rendered for people.
    pub open spec fn spec_message(self) -> Seq<char> {
        match self {
            ConcatenatedShortMessageDecodeError::InvalidInformationElementLength {
                actual,
                expected,
            } => "Invalid information element length. actual: "@ + spec_decimal(actual as int)
                + ", expected: "@ + spec_decimal(expected as int),
            ConcatenatedShortMessageDecodeError::PartNumberZero => "Part number cannot be zero"@,
            ConcatenatedShortMessageDecodeError::PartNumberExceedsTotalParts {
                part_number,
                total_parts,
            } => "Part number "@ + spec_decimal(part_number as int) + " exceeds total parts "@
                + spec_decimal(total_parts as int),
            ConcatenatedShortMessageDecodeError::TotalPartsZero => "Total parts cannot be zero"@,
            ConcatenatedShortMessageDecodeError::TooFewBytes { actual, min } => "Too few bytes. actual: "@
                + spec_decimal(actual as int) + ", min: "@ + spec_decimal(min as int),
        }
    }

    /// Renders the error.
    pub fn message(&self) -> (r: String)
        ensures
            r@ == self.spec_message(),
    {
        match self {
            ConcatenatedShortMessageDecodeError::InvalidInformationElementLength {
                actual,
                expected,
            } => {
                let mut s = String::from_str("Invalid information element length. actual: ");
                append_decimal(&mut s, *actual as u64);
                s.append(", expected: ");
                append_decimal(&mut s, *expected as u64);
                proof {
                    assert(s@ =~= self.spec_message());
                }
                s
            },
            ConcatenatedShortMessageDecodeError::PartNumberZero => String::from_str(
                "Part number cannot be zero",
            ),
            ConcatenatedShortMessageDecodeError::PartNumberExceedsTotalParts {
                part_number,
                total_parts,
            } => {
                let mut s = String::from_str("Part number ");
                append_decimal(&mut s, *part_number as u64);
                s.append(" exceeds total parts ");
                append_decimal(&mut s, *total_parts as u64);
                proof {
                    assert(s@ =~= self.spec_message());
                }
                s
            },
            ConcatenatedShortMessageDecodeError::TotalPartsZero => String::from_str(
                "Total parts cannot be zero",
            ),
            ConcatenatedShortMessageDecodeError::TooFewBytes { actual, min } => {
                let mut s = String::from_str("Too few bytes. actual: ");
                append_decimal(&mut s, *actual as u64);
                s.append(", min: ");
                append_decimal(&mut s, *min as u64);
                proof {
                    assert(s@ =~= self.spec_message());
                }
                s
            },
        }
    }
}

impl UdhDecodeError {
    /// What the error says when rendered for people.
    pub open spec fn spec_message(self) -> Seq<char> {
        match self {
            UdhDecodeError::ConcatenatedShortMessageDecodeError(e) => "ConcatenatedShortMessage decode error: "@
                + e.spec_message(),
        }
    }

    /// Renders the error.
    pub fn message(&self) -> (r: String)
        ensures
            r@ == self.spec_message(),
    {
        match self {
            UdhDecodeError::ConcatenatedShortMessageDecodeError(e) => {
                let mut s = String::from_str("ConcatenatedShortMessage decode error: ");
                let inner = e.message();
                s.append(inner.as_str());
                s
            },
        }
    }
}

impl DecodeErrorKind {
    /// What the kind says when rendered for people.
    pub open spec fn spec_message(self) -> Seq<char> {
        match self {
            DecodeErrorKind::IntegerDecodeError(e) => "Integer decode error: "@ + e.spec_message(),
            DecodeErrorKind::COctetStringDecodeError(e) => "COctetString error: "@
                + e.spec_message(),
            DecodeErrorKind::OctetStringDecodeError(e) => "OctetString error: "@ + e.spec_message(),
            DecodeErrorKind::AnyOctetStringDecodeError(e) => "AnyOctetString error: "@
                + e.spec_message(),
            DecodeErrorKind::HeaplessVecDecodeError(e) => "Vec decode error: "@ + e.spec_message(),
            DecodeErrorKind::UnsupportedKey { key } => "Unsupported key: "@ + spec_decimal(
                key as int,
            ),
            DecodeErrorKind::UdhDecodeError(e) => "UDH decode error: "@ + e.spec_message(),
        }
    }

    /// Renders the kind.
    pub fn message(&self) -> (r: String)
        ensures
            r@ == self.spec_message(),
    {
        match self {
            DecodeErrorKind::IntegerDecodeError(e) => {
                let mut s = String::from_str("Integer decode error: ");
                let inner = e.message();
                s.append(inner.as_str());
                s
            },
            DecodeErrorKind::COctetStringDecodeError(e) => {
                let mut s = String::from_str("COctetString error: ");
                let inner = e.message();
                s.append(inner.as_str());
                s
            },
            DecodeErrorKind::OctetStringDecodeError(e) => {
                let mut s = String::from_str("OctetString error: ");
                let inner = e.message();
                s.append(inner.as_str());
                s
            },
            DecodeErrorKind::AnyOctetStringDecodeError(e) => {
                let mut s = String::from_str("AnyOctetString error: ");
                let inner = e.message();
                s.append(inner.as_str());
                s
            },
            DecodeErrorKind::HeaplessVecDecodeError(e) => {
                let mut s = String::from_str("Vec decode error: ");
                let inner = e.message();
                s.append(inner.as_str());
                s
            },
            DecodeErrorKind::UnsupportedKey { key } => {
                let mut s = String::from_str("Unsupported key: ");
                append_decimal(&mut s, *key as u64);
                s
            },
            DecodeErrorKind::UdhDecodeError(e) => {
                let mut s = String::from_str("UDH decode error: ");
                let inner = e.message();
                s.append(inner.as_str());
                s
            },
        }
    }
}

impl DecodeError {
    /// What the error says when rendered for people.
    pub open spec fn spec_message(self) -> Seq<char> {
        "Decode error. kind: "@ + self.kind.spec_message()
    }

    /// Renders the error.
    pub fn message(&self) -> (r: String)
        ensures
            r@ == self.spec_message(),
    {
        let mut s = String::from_str("Decode error. kind: ");
        let inner = self.kind.message();
        s.append(inner.as_str());
        s
    }
}

/// Maps the value of a decode result, keeping the consumed-byte count.
pub trait DecodeResultExt<T, E>: Sized {
    /// The decode result this value stands for.
    spec fn spec_result(self) -> Result<(T, usize), E>;

    fn map_decoded<U, F: FnOnce(T) -> U>(self, op: F) -> (r: Result<(U, usize), E>)
        requires
            forall|t: T, n: usize|
                self.spec_result() == Ok::<(T, usize), E>((t, n)) ==> call_requires(op, (t,)),
        ensures
            match self.spec_result() {
                Ok(p) => r matches Ok(q) && q.1 == p.1 && call_ensures(op, (p.0,), q.0),
                Err(e) => r == Err::<(U, usize), E>(e),
            },
    ;
}

impl<T, E> DecodeResultExt<T, E> for Result<(T, usize), E> {
    open spec fn spec_result(self) -> Result<(T, usize), E> {
        self
    }

    fn map_decoded<U, F: FnOnce(T) -> U>(self, op: F) -> (r: Result<(U, usize), E>) {
        match self {
            Ok((decoded, size)) => Ok((op(decoded), size)),
            Err(e) => Err(e),
        }
    }
}

} // verus!
