//! User data header parsing.
//!
//! When the `udhi` flag of `esm_class` is set, `short_message` starts with
//! one length byte and that many bytes of information elements, each an
//! `iei`, a length and that many data bytes. Unknown elements keep their raw
//! bytes; the concatenated-short-message elements (8- and 16-bit reference)
//! are given their typed form, with the invariants the specification names.

use vstd::prelude::*;

use crate::codec::sdrop;
use crate::codec::slice_skip;
use crate::codec::slice_prefix_to_vec;
use crate::errors::ConcatenatedShortMessageDecodeError;
use crate::errors::UdhDecodeError;
use crate::strings::AnyOctetString;

verus! {

/// One information element of a user data header, kept raw.
#[derive(Debug, Clone, PartialEq, Eq, Hash)]
pub struct InformationElement {
    /// Information element identifier.
    pub iei: u8,
    /// The element's data bytes.
    pub data: AnyOctetString,
}

/// What decoding a flat run of information elements yields: each element's
/// identifier and data bytes.
pub open spec fn spec_decode_ies(s: Seq<u8>) -> Result<
    Seq<(u8, Seq<u8>)>,
    ConcatenatedShortMessageDecodeError,
>
    decreases s.len(),
{
    if s.len() == 0 {
        Ok(Seq::<(u8, Seq<u8>)>::empty())
    } else if s.len() < 2 {
        Err(ConcatenatedShortMessageDecodeError::TooFewBytes { actual: s.len() as usize, min: 2 })
    } else {
        let iei = s[0];
        let l = s[1];
        if s.len() < 2 + l {
            Err(
                ConcatenatedShortMessageDecodeError::TooFewBytes {
                    actual: s.len() as usize,
                    min: (2 + l) as usize,
                },
            )
        } else {
            match spec_decode_ies(sdrop(s, 2 + l as int)) {
                Err(e) => Err(e),
                Ok(rest) => Ok(seq![(iei, s.subrange(2, 2 + l as int))] + rest),
            }
        }
    }
}

/// What decoding a whole user data header yields: one length byte, then
/// that many bytes of information elements.
pub open spec fn spec_decode_udh(s: Seq<u8>) -> Result<
    (Seq<(u8, Seq<u8>)>, usize),
    ConcatenatedShortMessageDecodeError,
> {
    if s.len() < 1 {
        Err(ConcatenatedShortMessageDecodeError::TooFewBytes { actual: s.len() as usize, min: 1 })
    } else {
        let l = s[0];
        if s.len() < 1 + l {
            Err(
                ConcatenatedShortMessageDecodeError::TooFewBytes {
                    actual: s.len() as usize,
                    min: (1 + l) as usize,
                },
            )
        } else {
            match spec_decode_ies(s.subrange(1, 1 + l as int)) {
                Err(e) => Err(e),
                Ok(ies) => Ok((ies, (1 + l) as usize)),
            }
        }
    }
}

/// A parsed user data header: its information elements in order.
#[derive(Debug, Clone, PartialEq, Eq, Hash)]
pub struct Udh {
    pub elements: Vec<InformationElement>,
}

impl Udh {
    /// The elements as identifier and data bytes.
    pub open spec fn mirror(self) -> Seq<(u8, Seq<u8>)> {
        self.elements@.map_values(|e: InformationElement| (e.iei, e.data@))
    }

    /// Reads a user data header off the front of `short_message` bytes.
    #[verifier::loop_isolation(false)]
    #[verifier::rlimit(50)]
    pub fn decode(src: &[u8]) -> (r: Result<(Self, usize), UdhDecodeError>)
        ensures
            match r {
                Ok((v, n)) => {
                    &&& n <= src@.len()
                    &&& spec_decode_udh(src@) == Ok::<
                        (Seq<(u8, Seq<u8>)>, usize),
                        ConcatenatedShortMessageDecodeError,
                    >((v.mirror(), n))
                },
                Err(e) => e matches UdhDecodeError::ConcatenatedShortMessageDecodeError(i)
                    && spec_decode_udh(src@) == Err::<
                    (Seq<(u8, Seq<u8>)>, usize),
                    ConcatenatedShortMessageDecodeError,
                >(i),
            },
    {
        if src.len() < 1 {
            return Err(
                UdhDecodeError::ConcatenatedShortMessageDecodeError(
                    ConcatenatedShortMessageDecodeError::TooFewBytes { actual: src.len(), min: 1 },
                ),
            );
        }
        let l = src[0];
        if src.len() < 1 + l as usize {
            return Err(
                UdhDecodeError::ConcatenatedShortMessageDecodeError(
                    ConcatenatedShortMessageDecodeError::TooFewBytes {
                        actual: src.len(),
                        min: 1 + l as usize,
                    },
                ),
            );
        }
        let region = slice_prefix_to_vec(slice_skip(src, 1), l as usize);
        proof {
            assert(region@ =~= src@.subrange(1, 1 + l as int));
        }
        let ghost iemap = |e: InformationElement| (e.iei, e.data@);
        let mut elements: Vec<InformationElement> = Vec::new();
        let mut off: usize = 0;
        proof {
            assert(sdrop(region@, 0) =~= region@);
            match spec_decode_ies(region@) {
                Ok(rest) => {
                    assert(elements@.map_values(iemap) + rest =~= rest);
                },
                Err(_) => {},
            }
        }
        loop
            invariant
                off <= region@.len(),
                region@.len() == l as int,
                region@ == src@.subrange(1, 1 + l as int),
                src@.len() >= 1 + l,
                src@[0] == l,
                spec_decode_ies(src@.subrange(1, 1 + l as int)) == match spec_decode_ies(
                    sdrop(region@, off as int),
                ) {
                    Err(e) => Err::<Seq<(u8, Seq<u8>)>, ConcatenatedShortMessageDecodeError>(e),
                    Ok(rest) => Ok(elements@.map_values(iemap) + rest),
                },
            decreases region@.len() - off,
        {
            if off == region.len() {
                proof {
                    assert(sdrop(region@, off as int).len() == 0);
                    assert(elements@.map_values(iemap) + Seq::<(u8, Seq<u8>)>::empty()
                        =~= elements@.map_values(iemap));
                }
                return Ok((Self { elements }, 1 + l as usize));
            }
            let rem_len = region.len() - off;
            let ghost rem = sdrop(region@, off as int);
            proof {
                assert(rem.len() == rem_len);
            }
            if rem_len < 2 {
                return Err(
                    UdhDecodeError::ConcatenatedShortMessageDecodeError(
                        ConcatenatedShortMessageDecodeError::TooFewBytes { actual: rem_len, min: 2 },
                    ),
                );
            }
            let iei = region[off];
            let ie_len = region[off + 1];
            proof {
                assert(rem[0] == region@[off as int]);
                assert(rem[1] == region@[off as int + 1]);
            }
            if rem_len < 2 + ie_len as usize {
                return Err(
                    UdhDecodeError::ConcatenatedShortMessageDecodeError(
                        ConcatenatedShortMessageDecodeError::TooFewBytes {
                            actual: rem_len,
                            min: 2 + ie_len as usize,
                        },
                    ),
                );
            }
            let ghost prev = elements@;
            let data = slice_prefix_to_vec(slice_skip(region.as_slice(), off + 2), ie_len as usize);
            proof {
                assert(data@ =~= rem.subrange(2, 2 + ie_len as int));
                assert(sdrop(rem, 2 + ie_len as int) =~= sdrop(
                    region@,
                    off as int + 2 + ie_len as int,
                ));
            }
            let ie = InformationElement { iei, data: AnyOctetString::new(data) };
            elements.push(ie);
            proof {
                assert(elements@ == prev.push(ie));
                assert(iemap(ie) == (iei, rem.subrange(2, 2 + ie_len as int)));
                assert(elements@.map_values(iemap) =~= prev.map_values(iemap) + seq![iemap(ie)]);
                assert(elements@.map_values(iemap) == prev.map_values(iemap) + seq![
                    (iei, rem.subrange(2, 2 + ie_len as int)),
                ]);
                match spec_decode_ies(sdrop(region@, off as int + 2 + ie_len as int)) {
                    Ok(rest2) => {
                        assert(prev.map_values(iemap) + (seq![
                            (iei, rem.subrange(2, 2 + ie_len as int)),
                        ] + rest2) =~= elements@.map_values(iemap) + rest2);
                    },
                    Err(_) => {},
                }
            }
            off = off + 2 + ie_len as usize;
        }
    }
}

/// A concatenated-short-message information element: which part of how many
/// this message is, under which reassembly reference.
#[derive(Debug, Copy, Clone, PartialEq, Eq, Hash, Structural)]
pub struct ConcatenatedShortMessage {
    /// The reassembly reference shared by all parts.
    pub reference: u16,
    /// How many parts the message has; at least one.
    pub total_parts: u8,
    /// Which part this is, counted from one.
    pub part_number: u8,
}

impl ConcatenatedShortMessage {
    /// The invariants of a concatenation element.
    pub open spec fn wf(self) -> bool {
        &&& self.total_parts >= 1
        &&& 1 <= self.part_number <= self.total_parts
    }
}

/// What interpreting one information element as a concatenation element
/// yields: the typed element for the 8-bit (identifier 0x00) and 16-bit
/// (identifier 0x08) forms, nothing for any other identifier, and an error
/// when the data breaks the element's invariants.
pub open spec fn spec_concat_from_ie(iei: u8, data: Seq<u8>) -> Result<
    Option<ConcatenatedShortMessage>,
    ConcatenatedShortMessageDecodeError,
> {
    if iei == 0x00 {
        if data.len() != 3 {
            Err(
                ConcatenatedShortMessageDecodeError::InvalidInformationElementLength {
                    actual: data.len() as u8,
                    expected: 3,
                },
            )
        } else {
            spec_concat_checked(data[0] as u16, data[1], data[2])
        }
    } else if iei == 0x08 {
        if data.len() != 4 {
            Err(
                ConcatenatedShortMessageDecodeError::InvalidInformationElementLength {
                    actual: data.len() as u8,
                    expected: 4,
                },
            )
        } else {
            spec_concat_checked((data[0] as int * 0x100 + data[1] as int) as u16, data[2], data[3])
        }
    } else {
        Ok(None)
    }
}

/// The invariant checks shared by both concatenation forms.
pub open spec fn spec_concat_checked(reference: u16, total_parts: u8, part_number: u8) -> Result<
    Option<ConcatenatedShortMessage>,
    ConcatenatedShortMessageDecodeError,
> {
    if total_parts == 0 {
        Err(ConcatenatedShortMessageDecodeError::TotalPartsZero)
    } else if part_number == 0 {
        Err(ConcatenatedShortMessageDecodeError::PartNumberZero)
    } else if part_number > total_parts {
        Err(
            ConcatenatedShortMessageDecodeError::PartNumberExceedsTotalParts {
                part_number,
                total_parts,
            },
        )
    } else {
        Ok(Some(ConcatenatedShortMessage { reference, total_parts, part_number }))
    }
}

impl ConcatenatedShortMessage {
    /// Interprets one information element; see [`spec_concat_from_ie`].
    pub fn from_information_element(iei: u8, data: &[u8]) -> (r: Result<
        Option<Self>,
        ConcatenatedShortMessageDecodeError,
    >)
        ensures
            r == spec_concat_from_ie(iei, data@),
            r matches Ok(Some(c)) ==> c.wf(),
    {
        if iei == 0x00 {
            if data.len() != 3 {
                return Err(
                    ConcatenatedShortMessageDecodeError::InvalidInformationElementLength {
                        actual: data.len() as u8,
                        expected: 3,
                    },
                );
            }
            Self::checked(data[0] as u16, data[1], data[2])
        } else if iei == 0x08 {
            if data.len() != 4 {
                return Err(
                    ConcatenatedShortMessageDecodeError::InvalidInformationElementLength {
                        actual: data.len() as u8,
                        expected: 4,
                    },
                );
            }
            Self::checked(data[0] as u16 * 0x100 + data[1] as u16, data[2], data[3])
        } else {
            Ok(None)
        }
    }

    /// Builds the element, checking its invariants.
    fn checked(reference: u16, total_parts: u8, part_number: u8) -> (r: Result<
        Option<Self>,
        ConcatenatedShortMessageDecodeError,
    >)
        ensures
            r == spec_concat_checked(reference, total_parts, part_number),
            r matches Ok(Some(c)) ==> c.wf(),
    {
        if total_parts == 0 {
            return Err(ConcatenatedShortMessageDecodeError::TotalPartsZero);
        }
        if part_number == 0 {
            return Err(ConcatenatedShortMessageDecodeError::PartNumberZero);
        }
        if part_number > total_parts {
            return Err(
                ConcatenatedShortMessageDecodeError::PartNumberExceedsTotalParts {
                    part_number,
                    total_parts,
                },
            );
        }
        Ok(Some(Self { reference, total_parts, part_number }))
    }

    /// Looks for the first concatenation element of a parsed header: the
    /// typed element if one is present and valid, nothing if none is, the
    /// element's error if the first one found is broken.
    #[verifier::loop_isolation(false)]
    pub fn find_in_udh(udh: &Udh) -> (r: Result<
        Option<Self>,
        ConcatenatedShortMessageDecodeError,
    >)
        ensures
            r == spec_find_concat(udh.mirror()),
            r matches Ok(Some(c)) ==> c.wf(),
    {
        let mut i: usize = 0;
        proof {
            assert(udh.mirror().skip(0) =~= udh.mirror());
        }
        loop
            invariant
                i <= udh.elements@.len(),
                spec_find_concat(udh.mirror()) == spec_find_concat(
                    udh.mirror().skip(i as int),
                ),
            decreases udh.elements@.len() - i,
        {
            if i == udh.elements.len() {
                return Ok(None);
            }
            let e = &udh.elements[i];
            let r = Self::from_information_element(e.iei, e.data.as_bytes());
            proof {
                assert(udh.mirror()[i as int] == (e.iei, e.data@));
                assert(udh.mirror().skip(i as int)[0] == (e.iei, e.data@));
                assert(udh.mirror().skip(i as int).skip(1) =~= udh.mirror().skip(i as int + 1));
            }
            match r {
                Err(err) => {
                    return Err(err);
                },
                Ok(Some(c)) => {
                    return Ok(Some(c));
                },
                Ok(None) => {},
            }
            i = i + 1;
        }
    }
}

/// What scanning a parsed header for its first concatenation element
/// yields.
pub open spec fn spec_find_concat(ies: Seq<(u8, Seq<u8>)>) -> Result<
    Option<ConcatenatedShortMessage>,
    ConcatenatedShortMessageDecodeError,
>
    decreases ies.len(),
{
    if ies.len() == 0 {
        Ok(None)
    } else {
        match spec_concat_from_ie(ies[0].0, ies[0].1) {
            Err(e) => Err(e),
            Ok(Some(c)) => Ok(Some(c)),
            Ok(None) => spec_find_concat(ies.skip(1)),
        }
    }
}

} // verus!
