//! Octet-string value types of the SMPP wire format.
//!
//! Four disciplines exist: NUL-terminated ASCII strings with total size in
//! `[MIN, MAX]` ([`COctetString`]), strings that are either a lone NUL or
//! exactly `MAX` bytes ([`EmptyOrFullCOctetString`]), opaque strings whose
//! length is dictated by a sibling field ([`OctetString`]), and opaque tails
//! whose length comes from the surrounding framing ([`AnyOctetString`]).
//! Each decoder is specified exactly by a total spec function.

use vstd::prelude::*;

use crate::codec::slice_prefix_to_vec;
use crate::codec::push_all;
use crate::errors::COctetStringDecodeError;
use crate::errors::OctetStringDecodeError;
use crate::errors::AnyOctetStringDecodeError;

verus! {

/// A byte a C-octet string may carry before its terminator: ASCII, not NUL.
pub open spec fn ascii_nonzero(b: u8) -> bool {
    0 < b < 128
}

/// Well-formed C-octet string bytes: NUL-terminated, ASCII content, total
/// size within `[min, max]`.
pub open spec fn c_octet_wf(s: Seq<u8>, min: int, max: int) -> bool {
    &&& min <= s.len() <= max
    &&& 1 <= s.len()
    &&& s[s.len() - 1] == 0
    &&& forall|i: int| 0 <= i < s.len() - 1 ==> ascii_nonzero(#[trigger] s[i])
}

/// Scans `s` from `i` for the first NUL within the first `max` bytes.
///
/// Yields the index of the terminator, or the error the scan runs into
/// first: no NUL within `max` bytes, the buffer ending first, or a byte
/// with the high bit set before the terminator.
pub open spec fn scan_c_octet(s: Seq<u8>, max: int, i: int) -> Result<
    int,
    COctetStringDecodeError,
>
    decreases max - i,
{
    if i >= max {
        Err(COctetStringDecodeError::NotNullTerminated)
    } else if i >= s.len() {
        Err(COctetStringDecodeError::UnexpectedEof)
    } else if s[i] == 0 {
        Ok(i)
    } else if s[i] >= 128 {
        Err(COctetStringDecodeError::NotAscii)
    } else {
        scan_c_octet(s, max, i + 1)
    }
}

/// What decoding a C-octet string with bounds `[min, max]` from `s` yields:
/// the value's bytes, terminator included, and the bytes consumed.
pub open spec fn spec_decode_c_octet(s: Seq<u8>, min: int, max: int) -> Result<
    (Seq<u8>, usize),
    COctetStringDecodeError,
> {
    match scan_c_octet(s, max, 0) {
        Err(e) => Err(e),
        Ok(pos) => if pos + 1 < min {
            Err(COctetStringDecodeError::TooFewBytes { actual: (pos + 1) as usize, min: min as usize })
        } else {
            Ok((s.subrange(0, pos + 1), (pos + 1) as usize))
        },
    }
}

/// A scan that has passed only content bytes yields the same outcome from
/// anywhere between its start and the terminator.
proof fn lemma_scan_reaches(s: Seq<u8>, max: int, i: int, p: int)
    requires
        0 <= i <= p < s.len(),
        p < max,
        s[p] == 0,
        forall|j: int| i <= j < p ==> ascii_nonzero(#[trigger] s[j]),
    ensures
        scan_c_octet(s, max, i) == Ok::<int, COctetStringDecodeError>(p),
    decreases p - i,
{
    if i < p {
        lemma_scan_reaches(s, max, i + 1, p);
    }
}

/// A NUL-terminated 7-bit ASCII string whose total on-wire size, the
/// terminator included, lies in `[MIN, MAX]`.
#[derive(Debug, Clone, PartialEq, Eq, Hash)]
pub struct COctetString<const MIN: usize, const MAX: usize> {
    bytes: Vec<u8>,
}

impl<const MIN: usize, const MAX: usize> View for COctetString<MIN, MAX> {
    type V = Seq<u8>;

    closed spec fn view(&self) -> Seq<u8> {
        self.bytes@
    }
}

impl<const MIN: usize, const MAX: usize> COctetString<MIN, MAX> {
    /// The type's invariant over its bytes.
    pub open spec fn wf(self) -> bool {
        c_octet_wf(self@, MIN as int, MAX as int)
    }

    /// Takes possession of already well-formed bytes; absent when the bytes
    /// break the invariant.
    pub fn new(bytes: Vec<u8>) -> (r: Option<Self>)
        ensures
            r is Some <==> c_octet_wf(bytes@, MIN as int, MAX as int),
            r matches Some(v) ==> v@ == bytes@ && v.wf(),
    {
        if bytes.len() < MIN || bytes.len() > MAX || bytes.len() < 1 {
            return None;
        }
        if bytes[bytes.len() - 1] != 0 {
            return None;
        }
        let mut i: usize = 0;
        while i < bytes.len() - 1
            invariant
                i <= bytes@.len() - 1,
                forall|j: int| 0 <= j < i ==> ascii_nonzero(#[trigger] bytes@[j]),
            decreases bytes@.len() - i,
        {
            let b = bytes[i];
            if b == 0 || b >= 128 {
                return None;
            }
            i += 1;
        }
        Some(Self { bytes })
    }

    /// Builds the string from its content, appending the terminator; absent
    /// when the content is not ASCII or the total size leaves `[MIN, MAX]`.
    pub fn from_ascii(content: &[u8]) -> (r: Option<Self>)
        ensures
            r is Some <==> c_octet_wf(content@ + seq![0u8], MIN as int, MAX as int),
            r matches Some(v) ==> v@ == content@ + seq![0u8] && v.wf(),
    {
        if content.len() >= MAX || content.len() + 1 < MIN {
            return None;
        }
        let mut i: usize = 0;
        while i < content.len()
            invariant
                i <= content@.len(),
                forall|j: int| 0 <= j < i ==> ascii_nonzero(#[trigger] content@[j]),
            decreases content@.len() - i,
        {
            let b = content[i];
            if b == 0 || b >= 128 {
                proof {
                    assert((content@ + seq![0u8])[i as int] == content@[i as int]);
                }
                return None;
            }
            i += 1;
        }
        let mut bytes = slice_prefix_to_vec(content, content.len());
        bytes.push(0);
        assert(bytes@ =~= content@ + seq![0u8]);
        Some(Self { bytes })
    }

    /// The NULL string: a lone terminator.
    pub fn null() -> (r: Self)
        requires
            MIN <= 1,
            1 <= MAX,
        ensures
            r@ == seq![0u8],
            r.wf(),
    {
        let bytes: Vec<u8> = vec![0];
        Self { bytes }
    }

    /// Total size in bytes, the terminator included.
    pub fn length(&self) -> (r: usize)
        ensures
            r == self@.len(),
    {
        self.bytes.len()
    }

    /// Whether the string carries no content besides the terminator.
    pub fn is_empty(&self) -> (r: bool)
        ensures
            r == (self@.len() <= 1),
    {
        self.bytes.len() <= 1
    }

    /// The raw bytes, terminator included.
    pub fn as_bytes(&self) -> (r: &[u8])
        ensures
            r@ == self@,
    {
        self.bytes.as_slice()
    }

    /// Appends the on-wire form: the bytes as they stand.
    pub fn encode_to(&self, dst: &mut Vec<u8>)
        ensures
            final(dst)@ == old(dst)@ + self@,
    {
        push_all(dst, self.bytes.as_slice());
    }

    /// Reads one C-octet string off the front of `src`.
    pub fn decode(src: &[u8]) -> (r: Result<(Self, usize), COctetStringDecodeError>)
        ensures
            match r {
                Ok((v, n)) => {
                    &&& v.wf()
                    &&& n == v@.len()
                    &&& n <= src@.len()
                    &&& spec_decode_c_octet(src@, MIN as int, MAX as int) == Ok::<
                        (Seq<u8>, usize),
                        COctetStringDecodeError,
                    >((v@, n))
                },
                Err(e) => spec_decode_c_octet(src@, MIN as int, MAX as int) == Err::<
                    (Seq<u8>, usize),
                    COctetStringDecodeError,
                >(e),
            },
    {
        let mut i: usize = 0;
        loop
            invariant
                i <= MAX,
                i <= src@.len(),
                forall|j: int| 0 <= j < i ==> ascii_nonzero(#[trigger] src@[j]),
                scan_c_octet(src@, MAX as int, 0) == scan_c_octet(src@, MAX as int, i as int),
            decreases MAX - i,
        {
            if i >= MAX {
                return Err(COctetStringDecodeError::NotNullTerminated);
            }
            if i >= src.len() {
                return Err(COctetStringDecodeError::UnexpectedEof);
            }
            let b = src[i];
            if b == 0 {
                if i + 1 < MIN {
                    return Err(COctetStringDecodeError::TooFewBytes { actual: i + 1, min: MIN });
                }
                let bytes = slice_prefix_to_vec(src, i + 1);
                let v = Self { bytes };
                assert(v@[v@.len() - 1] == 0);
                return Ok((v, i + 1));
            }
            if b >= 128 {
                return Err(COctetStringDecodeError::NotAscii);
            }
            i += 1;
        }
    }
}

/// Decoding well-formed C-octet string bytes followed by anything yields
/// exactly those bytes back.
pub proof fn lemma_c_octet_round_trip(s: Seq<u8>, rest: Seq<u8>, min: int, max: int)
    requires
        c_octet_wf(s, min, max),
    ensures
        spec_decode_c_octet(s + rest, min, max) == Ok::<(Seq<u8>, usize), COctetStringDecodeError>(
            (s, s.len() as usize),
        ),
{
    let t = s + rest;
    let p = s.len() - 1;
    assert(t[p] == 0);
    assert(forall|j: int| 0 <= j < p ==> ascii_nonzero(#[trigger] t[j]));
    lemma_scan_reaches(t, max, 0, p);
    assert(t.subrange(0, p + 1) =~= s);
}

/// A string that is either a lone NUL or exactly `MAX` bytes on the wire,
/// NUL-terminated ASCII in the latter case.
#[derive(Debug, Clone, PartialEq, Eq, Hash)]
pub struct EmptyOrFullCOctetString<const MAX: usize> {
    bytes: Vec<u8>,
}

/// Well-formed bytes for the empty-or-full discipline.
pub open spec fn empty_or_full_wf(s: Seq<u8>, max: int) -> bool {
    ||| (s.len() == 1 && s[0] == 0)
    ||| (s.len() == max && 2 <= max && s[max - 1] == 0 && forall|i: int|
        0 <= i < max - 1 ==> ascii_nonzero(#[trigger] s[i]))
}

/// What decoding an empty-or-full C-octet string from `s` yields.
pub open spec fn spec_decode_empty_or_full(s: Seq<u8>, max: int) -> Result<
    (Seq<u8>, usize),
    COctetStringDecodeError,
> {
    if s.len() < 1 {
        Err(COctetStringDecodeError::UnexpectedEof)
    } else if s[0] == 0 {
        Ok((seq![0u8], 1))
    } else if s[0] >= 128 {
        Err(COctetStringDecodeError::NotAscii)
    } else {
        match scan_c_octet(s, max, 1) {
            Err(e) => Err(e),
            Ok(pos) => if pos + 1 < max {
                Err(COctetStringDecodeError::TooFewBytes {
                    actual: (pos + 1) as usize,
                    min: max as usize,
                })
            } else {
                Ok((s.subrange(0, pos + 1), (pos + 1) as usize))
            },
        }
    }
}

impl<const MAX: usize> View for EmptyOrFullCOctetString<MAX> {
    type V = Seq<u8>;

    closed spec fn view(&self) -> Seq<u8> {
        self.bytes@
    }
}

impl<const MAX: usize> EmptyOrFullCOctetString<MAX> {
    /// The type's invariant over its bytes.
    pub open spec fn wf(self) -> bool {
        empty_or_full_wf(self@, MAX as int)
    }

    /// Takes possession of already well-formed bytes; absent when the bytes
    /// break the invariant.
    pub fn new(bytes: Vec<u8>) -> (r: Option<Self>)
        ensures
            r is Some <==> empty_or_full_wf(bytes@, MAX as int),
            r matches Some(v) ==> v@ == bytes@ && v.wf(),
    {
        if bytes.len() == 1 && bytes[0] == 0 {
            return Some(Self { bytes });
        }
        if bytes.len() != MAX || MAX < 2 {
            return None;
        }
        if bytes[bytes.len() - 1] != 0 {
            return None;
        }
        let mut i: usize = 0;
        while i < bytes.len() - 1
            invariant
                i <= bytes@.len() - 1,
                forall|j: int| 0 <= j < i ==> ascii_nonzero(#[trigger] bytes@[j]),
            decreases bytes@.len() - i,
        {
            let b = bytes[i];
            if b == 0 || b >= 128 {
                return None;
            }
            i += 1;
        }
        Some(Self { bytes })
    }

    /// The empty form: a lone terminator.
    pub fn empty() -> (r: Self)
        ensures
            r@ == seq![0u8],
            r.wf(),
    {
        let bytes: Vec<u8> = vec![0];
        Self { bytes }
    }

    /// Total size in bytes, the terminator included.
    pub fn length(&self) -> (r: usize)
        ensures
            r == self@.len(),
    {
        self.bytes.len()
    }

    /// The raw bytes, terminator included.
    pub fn as_bytes(&self) -> (r: &[u8])
        ensures
            r@ == self@,
    {
        self.bytes.as_slice()
    }

    /// Appends the on-wire form: the bytes as they stand.
    pub fn encode_to(&self, dst: &mut Vec<u8>)
        ensures
            final(dst)@ == old(dst)@ + self@,
    {
        push_all(dst, self.bytes.as_slice());
    }

    /// Reads one empty-or-full C-octet string off the front of `src`.
    pub fn decode(src: &[u8]) -> (r: Result<(Self, usize), COctetStringDecodeError>)
        ensures
            match r {
                Ok((v, n)) => {
                    &&& v.wf()
                    &&& n == v@.len()
                    &&& n <= src@.len()
                    &&& spec_decode_empty_or_full(src@, MAX as int) == Ok::<
                        (Seq<u8>, usize),
                        COctetStringDecodeError,
                    >((v@, n))
                },
                Err(e) => spec_decode_empty_or_full(src@, MAX as int) == Err::<
                    (Seq<u8>, usize),
                    COctetStringDecodeError,
                >(e),
            },
    {
        if src.len() < 1 {
            return Err(COctetStringDecodeError::UnexpectedEof);
        }
        if src[0] == 0 {
            let v = Self::empty();
            return Ok((v, 1));
        }
        if src[0] >= 128 {
            return Err(COctetStringDecodeError::NotAscii);
        }
        let mut i: usize = 1;
        loop
            invariant
                1 <= i <= MAX || i == 1,
                i <= src@.len(),
                1 <= src@.len(),
                src@[0] != 0,
                src@[0] < 128,
                forall|j: int| 0 <= j < i ==> ascii_nonzero(#[trigger] src@[j]),
                scan_c_octet(src@, MAX as int, 1) == scan_c_octet(src@, MAX as int, i as int),
            decreases MAX - i,
    {
            if i >= MAX {
                return Err(COctetStringDecodeError::NotNullTerminated);
            }
            if i >= src.len() {
                return Err(COctetStringDecodeError::UnexpectedEof);
            }
            let b = src[i];
            if b == 0 {
                if i + 1 < MAX {
                    return Err(COctetStringDecodeError::TooFewBytes { actual: i + 1, min: MAX });
                }
                let bytes = slice_prefix_to_vec(src, i + 1);
                let v = Self { bytes };
                assert(v@[v@.len() - 1] == 0);
                return Ok((v, i + 1));
            }
            if b >= 128 {
                return Err(COctetStringDecodeError::NotAscii);
            }
            i += 1;
        }
    }
}

/// Decoding well-formed empty-or-full bytes followed by anything yields
/// exactly those bytes back.
pub proof fn lemma_empty_or_full_round_trip(s: Seq<u8>, rest: Seq<u8>, max: int)
    requires
        empty_or_full_wf(s, max),
    ensures
        spec_decode_empty_or_full(s + rest, max) == Ok::<
            (Seq<u8>, usize),
            COctetStringDecodeError,
        >((s, s.len() as usize)),
{
    let t = s + rest;
    if s.len() == 1 && s[0] == 0 {
        assert(t[0] == 0);
        assert(seq![0u8] =~= s);
    } else {
        let p = s.len() - 1;
        assert(t[p] == 0);
        assert(t[0] != 0);
        assert(forall|j: int| 1 <= j < p ==> ascii_nonzero(#[trigger] t[j]));
        lemma_scan_reaches(t, max, 1, p);
        assert(t.subrange(0, p + 1) =~= s);
    }
}

/// An opaque byte string whose length, dictated by a sibling field, lies in
/// `[MIN, MAX]`. No terminator.
#[derive(Debug, Clone, PartialEq, Eq, Hash)]
pub struct OctetString<const MIN: usize, const MAX: usize> {
    bytes: Vec<u8>,
}

/// Well-formed octet string bytes: length within `[min, max]`.
pub open spec fn octet_wf(s: Seq<u8>, min: int, max: int) -> bool {
    min <= s.len() <= max
}

/// What decoding an octet string of `count` bytes with bounds `[min, max]`
/// from `s` yields.
pub open spec fn spec_decode_octet(s: Seq<u8>, count: int, min: int, max: int) -> Result<
    (Seq<u8>, usize),
    OctetStringDecodeError,
> {
    if count > max {
        Err(OctetStringDecodeError::TooManyBytes { actual: count as usize, max: max as usize })
    } else if count < min {
        Err(OctetStringDecodeError::TooFewBytes { actual: count as usize, min: min as usize })
    } else if s.len() < count {
        Err(OctetStringDecodeError::UnexpectedEof)
    } else {
        Ok((s.subrange(0, count), count as usize))
    }
}

impl<const MIN: usize, const MAX: usize> View for OctetString<MIN, MAX> {
    type V = Seq<u8>;

    closed spec fn view(&self) -> Seq<u8> {
        self.bytes@
    }
}

impl<const MIN: usize, const MAX: usize> OctetString<MIN, MAX> {
    /// The type's invariant over its bytes.
    pub open spec fn wf(self) -> bool {
        octet_wf(self@, MIN as int, MAX as int)
    }

    /// Takes possession of the bytes; absent when their number leaves
    /// `[MIN, MAX]`.
    pub fn new(bytes: Vec<u8>) -> (r: Option<Self>)
        ensures
            r is Some <==> octet_wf(bytes@, MIN as int, MAX as int),
            r matches Some(v) ==> v@ == bytes@ && v.wf(),
    {
        if bytes.len() < MIN || bytes.len() > MAX {
            return None;
        }
        Some(Self { bytes })
    }

    /// The empty string.
    pub fn empty() -> (r: Self)
        requires
            MIN == 0,
        ensures
            r@ == Seq::<u8>::empty(),
            r.wf(),
    {
        let bytes: Vec<u8> = Vec::new();
        Self { bytes }
    }

    /// Length in bytes.
    pub fn length(&self) -> (r: usize)
        ensures
            r == self@.len(),
    {
        self.bytes.len()
    }

    /// Whether no bytes are present.
    pub fn is_empty(&self) -> (r: bool)
        ensures
            r == (self@.len() == 0),
    {
        self.bytes.len() == 0
    }

    /// The raw bytes.
    pub fn as_bytes(&self) -> (r: &[u8])
        ensures
            r@ == self@,
    {
        self.bytes.as_slice()
    }

    /// Appends the on-wire form: the bytes as they stand.
    pub fn encode_to(&self, dst: &mut Vec<u8>)
        ensures
            final(dst)@ == old(dst)@ + self@,
    {
        push_all(dst, self.bytes.as_slice());
    }

    /// Reads exactly `count` bytes off the front of `src`.
    pub fn decode(src: &[u8], count: usize) -> (r: Result<(Self, usize), OctetStringDecodeError>)
        ensures
            match r {
                Ok((v, n)) => {
                    &&& v.wf()
                    &&& n == count
                    &&& n <= src@.len()
                    &&& spec_decode_octet(src@, count as int, MIN as int, MAX as int) == Ok::<
                        (Seq<u8>, usize),
                        OctetStringDecodeError,
                    >((v@, n))
                },
                Err(e) => spec_decode_octet(src@, count as int, MIN as int, MAX as int) == Err::<
                    (Seq<u8>, usize),
                    OctetStringDecodeError,
                >(e),
            },
    {
        if count > MAX {
            return Err(OctetStringDecodeError::TooManyBytes { actual: count, max: MAX });
        }
        if count < MIN {
            return Err(OctetStringDecodeError::TooFewBytes { actual: count, min: MIN });
        }
        if src.len() < count {
            return Err(OctetStringDecodeError::UnexpectedEof);
        }
        let bytes = slice_prefix_to_vec(src, count);
        Ok((Self { bytes }, count))
    }
}

/// Decoding an octet string's bytes followed by anything, with its own
/// length as the requested count, yields exactly those bytes back.
pub proof fn lemma_octet_round_trip(s: Seq<u8>, rest: Seq<u8>, min: int, max: int)
    requires
        octet_wf(s, min, max),
    ensures
        spec_decode_octet(s + rest, s.len() as int, min, max) == Ok::<
            (Seq<u8>, usize),
            OctetStringDecodeError,
        >((s, s.len() as usize)),
{
    assert((s + rest).subrange(0, s.len() as int) =~= s);
}

/// An opaque byte string whose length is known only from the surrounding
/// framing. No bounds, no terminator.
#[derive(Debug, Clone, PartialEq, Eq, Hash)]
pub struct AnyOctetString {
    bytes: Vec<u8>,
}

/// What decoding an untyped octet tail of `count` bytes from `s` yields.
pub open spec fn spec_decode_any_octet(s: Seq<u8>, count: int) -> Result<
    (Seq<u8>, usize),
    AnyOctetStringDecodeError,
> {
    if s.len() < count {
        Err(AnyOctetStringDecodeError::UnexpectedEof)
    } else {
        Ok((s.subrange(0, count), count as usize))
    }
}

impl View for AnyOctetString {
    type V = Seq<u8>;

    closed spec fn view(&self) -> Seq<u8> {
        self.bytes@
    }
}

impl AnyOctetString {
    /// Takes possession of the bytes; any content is admitted.
    pub fn new(bytes: Vec<u8>) -> (r: Self)
        ensures
            r@ == bytes@,
    {
        Self { bytes }
    }

    /// The empty string.
    pub fn empty() -> (r: Self)
        ensures
            r@ == Seq::<u8>::empty(),
    {
        Self { bytes: Vec::new() }
    }

    /// Length in bytes.
    pub fn length(&self) -> (r: usize)
        ensures
            r == self@.len(),
    {
        self.bytes.len()
    }

    /// Whether no bytes are present.
    pub fn is_empty(&self) -> (r: bool)
        ensures
            r == (self@.len() == 0),
    {
        self.bytes.len() == 0
    }

    /// The raw bytes.
    pub fn as_bytes(&self) -> (r: &[u8])
        ensures
            r@ == self@,
    {
        self.bytes.as_slice()
    }

    /// Appends the on-wire form: the bytes as they stand.
    pub fn encode_to(&self, dst: &mut Vec<u8>)
        ensures
            final(dst)@ == old(dst)@ + self@,
    {
        push_all(dst, self.bytes.as_slice());
    }

    /// Reads exactly `count` bytes off the front of `src`.
    pub fn decode(src: &[u8], count: usize) -> (r: Result<
        (Self, usize),
        AnyOctetStringDecodeError,
    >)
        ensures
            match r {
                Ok((v, n)) => {
                    &&& n == count
                    &&& n <= src@.len()
                    &&& spec_decode_any_octet(src@, count as int) == Ok::<
                        (Seq<u8>, usize),
                        AnyOctetStringDecodeError,
                    >((v@, n))
                },
                Err(e) => spec_decode_any_octet(src@, count as int) == Err::<
                    (Seq<u8>, usize),
                    AnyOctetStringDecodeError,
                >(e),
            },
    {
        if src.len() < count {
            return Err(AnyOctetStringDecodeError::UnexpectedEof);
        }
        let bytes = slice_prefix_to_vec(src, count);
        Ok((Self { bytes }, count))
    }
}

/// Decoding an untyped tail's bytes followed by anything, with its own
/// length as the requested count, yields exactly those bytes back.
pub proof fn lemma_any_octet_round_trip(s: Seq<u8>, rest: Seq<u8>)
    ensures
        spec_decode_any_octet(s + rest, s.len() as int) == Ok::<
            (Seq<u8>, usize),
            AnyOctetStringDecodeError,
        >((s, s.len() as usize)),
{
    assert((s + rest).subrange(0, s.len() as int) =~= s);
}

} // verus!
