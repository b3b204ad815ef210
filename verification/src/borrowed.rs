//! Zero-copy views over an input buffer.
//!
//! These mirror the owning string types of [`crate::strings`] but hold a
//! slice of the buffer they were decoded from, so a high-throughput server
//! can parse without copying. They satisfy the same wire-level
//! specifications as the owning forms; the buffer must outlive every view
//! into it, which the borrow checker enforces.

use vstd::prelude::*;

use crate::codec::push_all;
use crate::errors::COctetStringDecodeError;
use crate::strings::ascii_nonzero;
use crate::strings::c_octet_wf;
use crate::strings::scan_c_octet;
use crate::strings::spec_decode_c_octet;

verus! {

/// A NUL-terminated 7-bit ASCII string viewed in place, total size within
/// `[MIN, MAX]`.
#[derive(Debug, Clone, Copy, PartialEq, Eq, Hash)]
pub struct COctetString<'a, const MIN: usize, const MAX: usize> {
    bytes: &'a [u8],
}

impl<'a, const MIN: usize, const MAX: usize> View for COctetString<'a, MIN, MAX> {
    type V = Seq<u8>;

    closed spec fn view(&self) -> Seq<u8> {
        self.bytes@
    }
}

impl<'a, const MIN: usize, const MAX: usize> COctetString<'a, MIN, MAX> {
    /// The type's invariant over the viewed bytes.
    pub open spec fn wf(self) -> bool {
        c_octet_wf(self@, MIN as int, MAX as int)
    }

    /// Views already well-formed bytes; absent when the bytes break the
    /// invariant.
    pub fn new(bytes: &'a [u8]) -> (r: Option<Self>)
        ensures
            r is Some <==> c_octet_wf(bytes@, MIN as int, MAX as int),
            r matches Some(v) ==> v@ == bytes@ && v.wf(),
    {
        if bytes.len() < MIN || bytes.len() > MAX || bytes.len() < 1 {
            return None;
        }
        if bytes[bytes.len() - 1] != 0 {
            return None;
        }
        let mut i: usize = 0;
        while i < bytes.len() - 1
            invariant
                i <= bytes@.len() - 1,
                forall|j: int| 0 <= j < i ==> ascii_nonzero(#[trigger] bytes@[j]),
            decreases bytes@.len() - i,
        {
            let b = bytes[i];
            if b == 0 || b >= 128 {
                return None;
            }
            i += 1;
        }
        Some(Self { bytes })
    }

    /// Total size in bytes, the terminator included.
    pub fn length(&self) -> (r: usize)
        ensures
            r == self@.len(),
    {
        self.bytes.len()
    }

    /// Whether the string carries no content besides the terminator.
    pub fn is_empty(&self) -> (r: bool)
        ensures
            r == (self@.len() <= 1),
    {
        self.bytes.len() <= 1
    }

    /// The viewed bytes, terminator included.
    pub fn as_bytes(&self) -> (r: &[u8])
        ensures
            r@ == self@,
    {
        self.bytes
    }

    /// Appends the on-wire form: the bytes as they stand.
    pub fn encode_to(&self, dst: &mut Vec<u8>)
        ensures
            final(dst)@ == old(dst)@ + self@,
    {
        push_all(dst, self.bytes);
    }

    /// Reads one C-octet string off the front of `src`, as a view into
    /// `src` itself: no bytes are copied.
    pub fn decode(src: &'a [u8]) -> (r: Result<(Self, usize), COctetStringDecodeError>)
        ensures
            match r {
                Ok((v, n)) => {
                    &&& v.wf()
                    &&& n == v@.len()
                    &&& n <= src@.len()
                    &&& spec_decode_c_octet(src@, MIN as int, MAX as int) == Ok::<
                        (Seq<u8>, usize),
                        COctetStringDecodeError,
                    >((v@, n))
                },
                Err(e) => spec_decode_c_octet(src@, MIN as int, MAX as int) == Err::<
                    (Seq<u8>, usize),
                    COctetStringDecodeError,
                >(e),
            },
    {
        let mut i: usize = 0;
        loop
            invariant
                i <= MAX,
                i <= src@.len(),
                forall|j: int| 0 <= j < i ==> ascii_nonzero(#[trigger] src@[j]),
                scan_c_octet(src@, MAX as int, 0) == scan_c_octet(src@, MAX as int, i as int),
            decreases MAX - i,
        {
            if i >= MAX {
                return Err(COctetStringDecodeError::NotNullTerminated);
            }
            if i >= src.len() {
                return Err(COctetStringDecodeError::UnexpectedEof);
            }
            let b = src[i];
            if b == 0 {
                if i + 1 < MIN {
                    return Err(COctetStringDecodeError::TooFewBytes { actual: i + 1, min: MIN });
                }
                let (bytes, _) = src.split_at(i + 1);
                let v = Self { bytes };
                assert(v@[v@.len() - 1] == 0);
                return Ok((v, i + 1));
            }
            if b >= 128 {
                return Err(COctetStringDecodeError::NotAscii);
            }
            i += 1;
        }
    }
}

} // verus!
