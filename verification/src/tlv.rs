//! Tag-length-value optional parameters.
//!
//! A TLV is a 2-byte tag, a 2-byte value length and exactly that many value
//! bytes. The registry here types the `message_payload` tag; every other tag
//! is carried through with its raw value bytes, as vendors in the wild use
//! private tags.

use vstd::prelude::*;

use crate::codec::u16_be_bytes;
use crate::codec::spec_decode_u16;
use crate::codec::decode_u16;
use crate::codec::encode_u16_to;
use crate::codec::slice_skip;
use crate::codec::sdrop;
use crate::codec::lemma_u16_round_trip;
use crate::codec::lemma_add_then_skip;
use crate::errors::DecodeError;
use crate::errors::DecodeErrorKind;
use crate::errors::AnyOctetStringDecodeError;
use crate::strings::AnyOctetString;

verus! {

/// The tag of a TLV. Tags without a typed value in this registry are kept
/// under the catch-all variant.
#[derive(Debug, Copy, Clone, PartialEq, Eq, Hash, Structural)]
pub enum TlvTag {
    MessagePayload,
    Other(u16),
}

impl TlvTag {
    /// The two-byte code this tag is written as.
    pub open spec fn spec_to_u16(self) -> u16 {
        match self {
            TlvTag::MessagePayload => 0x0424,
            TlvTag::Other(t) => t,
        }
    }

    /// The tag a two-byte code is read as.
    pub open spec fn spec_from_u16(t: u16) -> TlvTag {
        if t == 0x0424 {
            TlvTag::MessagePayload
        } else {
            TlvTag::Other(t)
        }
    }

    /// The catch-all variant never shadows a registered tag.
    pub open spec fn wf(self) -> bool {
        self matches TlvTag::Other(t) ==> t != 0x0424
    }

    pub fn to_u16(self) -> (r: u16)
        ensures
            r == self.spec_to_u16(),
    {
        match self {
            TlvTag::MessagePayload => 0x0424,
            TlvTag::Other(t) => t,
        }
    }

    pub fn from_u16(t: u16) -> (r: TlvTag)
        ensures
            r == TlvTag::spec_from_u16(t),
            r.wf(),
            r.spec_to_u16() == t,
    {
        if t == 0x0424 {
            TlvTag::MessagePayload
        } else {
            TlvTag::Other(t)
        }
    }
}

/// The `message_payload` TLV value: the message text as an opaque tail,
/// used in place of the inline `short_message` field.
#[derive(Debug, Clone, PartialEq, Eq, Hash)]
pub struct MessagePayload {
    value: AnyOctetString,
}

impl View for MessagePayload {
    type V = Seq<u8>;

    closed spec fn view(&self) -> Seq<u8> {
        self.value@
    }
}

impl MessagePayload {
    pub fn new(value: AnyOctetString) -> (r: Self)
        ensures
            r@ == value@,
    {
        Self { value }
    }

    /// Length of the payload in bytes.
    pub fn length(&self) -> (r: usize)
        ensures
            r == self@.len(),
    {
        self.value.length()
    }

    /// The raw payload bytes.
    pub fn as_bytes(&self) -> (r: &[u8])
        ensures
            r@ == self@,
    {
        self.value.as_bytes()
    }
}

/// A typed TLV value: the registered tags with their typed form, and the
/// rest with raw bytes.
#[derive(Debug, Clone, PartialEq, Eq, Hash)]
pub enum TlvValue {
    MessagePayload(MessagePayload),
    Other { tag: TlvTag, value: AnyOctetString },
}

impl TlvValue {
    /// The tag this value belongs to.
    pub open spec fn spec_tag(self) -> TlvTag {
        match self {
            TlvValue::MessagePayload(_) => TlvTag::MessagePayload,
            TlvValue::Other { tag, .. } => tag,
        }
    }

    /// The value bytes as they are written after the TLV header.
    pub open spec fn value_bytes(self) -> Seq<u8> {
        match self {
            TlvValue::MessagePayload(p) => p@,
            TlvValue::Other { value, .. } => value@,
        }
    }

    /// A raw-carried value never claims a registered tag.
    pub open spec fn wf(self) -> bool {
        self matches TlvValue::Other { tag, .. } ==> (tag matches TlvTag::Other(t) && t != 0x0424)
    }

    pub fn tag(&self) -> (r: TlvTag)
        ensures
            r == self.spec_tag(),
    {
        match self {
            TlvValue::MessagePayload(_) => TlvTag::MessagePayload,
            TlvValue::Other { tag, .. } => *tag,
        }
    }

    /// Length of the value bytes.
    pub fn length(&self) -> (r: usize)
        ensures
            r == self.value_bytes().len(),
    {
        match self {
            TlvValue::MessagePayload(p) => p.length(),
            TlvValue::Other { value, .. } => value.length(),
        }
    }

    /// Appends the value bytes.
    pub fn encode_value_to(&self, dst: &mut Vec<u8>)
        ensures
            final(dst)@ == old(dst)@ + self.value_bytes(),
    {
        match self {
            TlvValue::MessagePayload(p) => crate::codec::push_all(dst, p.as_bytes()),
            TlvValue::Other { value, .. } => value.encode_to(dst),
        }
    }
}

/// The on-wire form of a TLV: tag, declared length, value bytes.
pub open spec fn tlv_enc(tag: TlvTag, len: u16, val: Seq<u8>) -> Seq<u8> {
    u16_be_bytes(tag.spec_to_u16()) + u16_be_bytes(len) + val
}

/// What decoding a TLV from `s` yields: tag, declared length, raw value
/// bytes, and the bytes consumed.
pub open spec fn spec_decode_tlv(s: Seq<u8>) -> Result<((TlvTag, u16, Seq<u8>), usize), DecodeError> {
    match spec_decode_u16(s) {
        Err(e) => Err(DecodeError { kind: DecodeErrorKind::IntegerDecodeError(e) }),
        Ok((t, _)) => match spec_decode_u16(sdrop(s, 2)) {
            Err(e) => Err(DecodeError { kind: DecodeErrorKind::IntegerDecodeError(e) }),
            Ok((l, _)) => if s.len() < 4 + l {
                Err(
                    DecodeError {
                        kind: DecodeErrorKind::AnyOctetStringDecodeError(
                            AnyOctetStringDecodeError::UnexpectedEof,
                        ),
                    },
                )
            } else {
                Ok(((TlvTag::spec_from_u16(t), l, s.subrange(4, 4 + l)), (4 + l) as usize))
            },
        },
    }
}

/// One tag-length-value optional parameter. The declared length always
/// matches the serialized value exactly.
#[derive(Debug, Clone, PartialEq, Eq, Hash)]
pub struct Tlv {
    tag: TlvTag,
    value_length: u16,
    value: TlvValue,
}

impl Tlv {
    /// Spec-level accessors.
    pub closed spec fn spec_tag(self) -> TlvTag {
        self.tag
    }

    pub closed spec fn spec_value_length(self) -> u16 {
        self.value_length
    }

    pub closed spec fn spec_value(self) -> TlvValue {
        self.value
    }

    /// The type's invariant: the tag is the value's own, and the declared
    /// length is the value's serialized size.
    pub open spec fn wf(self) -> bool {
        &&& self.spec_tag() == self.spec_value().spec_tag()
        &&& self.spec_tag().wf()
        &&& self.spec_value().wf()
        &&& self.spec_value_length() == self.spec_value().value_bytes().len()
    }

    /// The header fields and raw value bytes, as they stand on the wire.
    pub open spec fn mirror(self) -> (TlvTag, u16, Seq<u8>) {
        (self.spec_tag(), self.spec_value_length(), self.spec_value().value_bytes())
    }

    /// The full on-wire form.
    pub open spec fn spec_encoded(self) -> Seq<u8> {
        tlv_enc(self.spec_tag(), self.spec_value_length(), self.spec_value().value_bytes())
    }

    /// Wraps a typed value, deriving the header from it.
    pub fn new(value: TlvValue) -> (r: Self)
        requires
            value.wf(),
            value.value_bytes().len() <= 0xFFFF,
        ensures
            r.wf(),
            r.spec_value() == value,
            r.spec_tag() == value.spec_tag(),
            r.spec_value_length() == value.value_bytes().len(),
    {
        let tag = value.tag();
        let value_length = value.length() as u16;
        Self { tag, value_length, value }
    }

    pub fn tag(&self) -> (r: TlvTag)
        ensures
            r == self.spec_tag(),
    {
        self.tag
    }

    pub fn value_length(&self) -> (r: u16)
        ensures
            r == self.spec_value_length(),
    {
        self.value_length
    }

    pub fn value(&self) -> (r: &TlvValue)
        ensures
            r == self.spec_value(),
    {
        &self.value
    }

    /// Total on-wire size: the 4 header bytes plus the value.
    pub fn length(&self) -> (r: usize)
        requires
            self.wf(),
        ensures
            r == self.spec_encoded().len(),
    {
        4 + self.value.length()
    }

    /// Appends the on-wire form: tag, length, value bytes.
    pub fn encode_to(&self, dst: &mut Vec<u8>)
        ensures
            final(dst)@ == old(dst)@ + self.spec_encoded(),
    {
        encode_u16_to(self.tag.to_u16(), dst);
        encode_u16_to(self.value_length, dst);
        self.value.encode_value_to(dst);
        assert(final(dst)@ =~= old(dst)@ + self.spec_encoded());
    }

    /// Reads one TLV off the front of `src`. A registered tag produces its
    /// typed value; any other tag keeps its raw bytes.
    pub fn decode(src: &[u8]) -> (r: Result<(Self, usize), DecodeError>)
        ensures
            match r {
                Ok((v, n)) => {
                    &&& v.wf()
                    &&& spec_decode_tlv(src@) == Ok::<((TlvTag, u16, Seq<u8>), usize), DecodeError>(
                        (v.mirror(), n),
                    )
                    &&& n <= src@.len()
                },
                Err(e) => spec_decode_tlv(src@) == Err::<((TlvTag, u16, Seq<u8>), usize), DecodeError>(
                    e,
                ),
            },
    {
        let (tag_code, _) = match decode_u16(src) {
            Ok(p) => p,
            Err(e) => {
                return Err(DecodeError::integer_decode_error(e));
            },
        };
        let after_tag = slice_skip(src, 2);
        let (len, _) = match decode_u16(after_tag) {
            Ok(p) => p,
            Err(e) => {
                return Err(DecodeError::integer_decode_error(e));
            },
        };
        let after_header = slice_skip(src, 4);
        let (raw, _) = match AnyOctetString::decode(after_header, len as usize) {
            Ok(p) => p,
            Err(e) => {
                return Err(DecodeError::any_octet_string_decode_error(e));
            },
        };
        proof {
            assert(sdrop(src@, 4) == sdrop(sdrop(src@, 2), 2));
            assert(src@.subrange(4, 4 + len as int) =~= sdrop(src@, 4).subrange(0, len as int));
        }
        let tag = TlvTag::from_u16(tag_code);
        let value = match tag {
            TlvTag::MessagePayload => TlvValue::MessagePayload(MessagePayload::new(raw)),
            TlvTag::Other(_) => TlvValue::Other { tag, value: raw },
        };
        Ok((Self { tag, value_length: len, value }, 4 + len as usize))
    }
}

/// Decoding an encoded TLV whose declared length matches its value, followed
/// by anything, yields the same header and value bytes back.
pub proof fn lemma_tlv_round_trip(tag: TlvTag, len: u16, val: Seq<u8>, rest: Seq<u8>)
    requires
        tag.wf(),
        len == val.len(),
    ensures
        spec_decode_tlv(tlv_enc(tag, len, val) + rest) == Ok::<
            ((TlvTag, u16, Seq<u8>), usize),
            DecodeError,
        >(((tag, len, val), (4 + len) as usize)),
{
    let s = tlv_enc(tag, len, val) + rest;
    let tail = u16_be_bytes(len) + (val + rest);
    assert(s =~= u16_be_bytes(tag.spec_to_u16()) + tail);
    lemma_u16_round_trip(tag.spec_to_u16(), tail);
    lemma_add_then_skip(u16_be_bytes(tag.spec_to_u16()), tail);
    lemma_u16_round_trip(len, val + rest);
    assert(s.subrange(4, 4 + len as int) =~= val);
}

/// The header-and-value mirrors of a run of TLVs.
pub open spec fn tlvs_mirror_wf(ms: Seq<(TlvTag, u16, Seq<u8>)>) -> bool {
    forall|i: int|
        0 <= i < ms.len() ==> (#[trigger] ms[i]).0.wf() && ms[i].1 == ms[i].2.len()
}

/// The on-wire form of a run of TLVs, one after the other.
pub open spec fn tlvs_enc(ms: Seq<(TlvTag, u16, Seq<u8>)>) -> Seq<u8>
    decreases ms.len(),
{
    if ms.len() == 0 {
        Seq::<u8>::empty()
    } else {
        tlv_enc(ms[0].0, ms[0].1, ms[0].2) + tlvs_enc(ms.skip(1))
    }
}

/// What decoding TLVs until the buffer is exhausted yields.
pub open spec fn spec_decode_tlvs(s: Seq<u8>) -> Result<Seq<(TlvTag, u16, Seq<u8>)>, DecodeError>
    decreases s.len(),
{
    if s.len() == 0 {
        Ok(Seq::<(TlvTag, u16, Seq<u8>)>::empty())
    } else {
        match spec_decode_tlv(s) {
            Err(e) => Err(e),
            Ok((tm, n)) => match spec_decode_tlvs(sdrop(s, n as int)) {
                Err(e) => Err(e),
                Ok(rest) => Ok(seq![tm] + rest),
            },
        }
    }
}

/// Appends a run of TLVs.
#[verifier::loop_isolation(false)]
pub fn encode_tlvs_to(tlvs: &Vec<Tlv>, dst: &mut Vec<u8>)
    ensures
        final(dst)@ == old(dst)@ + tlvs_enc(tlvs@.map_values(|t: Tlv| t.mirror())),
{
    let ghost tmap = |t: Tlv| t.mirror();
    let ghost ms = tlvs@.map_values(tmap);
    let mut i: usize = 0;
    proof {
        assert(ms.skip(0) =~= ms);
    }
    loop
        invariant
            i <= tlvs@.len(),
            dst@ + tlvs_enc(ms.skip(i as int)) == old(dst)@ + tlvs_enc(ms),
        decreases tlvs@.len() - i,
    {
        if i == tlvs.len() {
            proof {
                assert(ms.skip(i as int).len() == 0);
                assert(tlvs_enc(ms.skip(i as int)) =~= Seq::<u8>::empty());
                assert(dst@ + Seq::<u8>::empty() =~= dst@);
            }
            return ;
        }
        let ghost pre = dst@;
        tlvs[i].encode_to(dst);
        proof {
            assert(ms.skip(i as int)[0] == tmap(tlvs@[i as int]));
            assert(ms.skip(i as int).skip(1) =~= ms.skip(i as int + 1));
            assert(tlvs_enc(ms.skip(i as int)) == tlvs@[i as int].spec_encoded() + tlvs_enc(
                ms.skip(i as int + 1),
            ));
            assert((pre + tlvs@[i as int].spec_encoded()) + tlvs_enc(ms.skip(i as int + 1))
                =~= pre + (tlvs@[i as int].spec_encoded() + tlvs_enc(ms.skip(i as int + 1))));
        }
        i += 1;
    }
}

/// Reads TLVs until `src` is exhausted.
#[verifier::loop_isolation(false)]
#[verifier::rlimit(100)]
#[verifier::spinoff_prover]
pub fn decode_tlvs(src: &[u8]) -> (r: Result<Vec<Tlv>, DecodeError>)
    ensures
        match r {
            Ok(v) => {
                &&& forall|i: int| 0 <= i < v@.len() ==> (#[trigger] v@[i]).wf()
                &&& spec_decode_tlvs(src@) == Ok::<Seq<(TlvTag, u16, Seq<u8>)>, DecodeError>(
                    v@.map_values(|t: Tlv| t.mirror()),
                )
            },
            Err(e) => spec_decode_tlvs(src@) == Err::<Seq<(TlvTag, u16, Seq<u8>)>, DecodeError>(e),
        },
{
    let ghost tmap = |t: Tlv| t.mirror();
    let mut tlvs: Vec<Tlv> = Vec::new();
    let mut off: usize = 0;
    proof {
        assert(sdrop(src@, 0) =~= src@);
        match spec_decode_tlvs(src@) {
            Ok(rest) => {
                assert(tlvs@.map_values(tmap) + rest =~= rest);
            },
            Err(_) => {},
        }
    }
    loop
        invariant
            off <= src@.len(),
            forall|i: int| 0 <= i < tlvs@.len() ==> (#[trigger] tlvs@[i]).wf(),
            spec_decode_tlvs(src@) == match spec_decode_tlvs(sdrop(src@, off as int)) {
                Err(e) => Err::<Seq<(TlvTag, u16, Seq<u8>)>, DecodeError>(e),
                Ok(rest) => Ok(tlvs@.map_values(tmap) + rest),
            },
        decreases src@.len() - off,
    {
        if off == src.len() {
            proof {
                assert(sdrop(src@, off as int).len() == 0);
                assert(tlvs@.map_values(tmap) + Seq::<(TlvTag, u16, Seq<u8>)>::empty()
                    =~= tlvs@.map_values(tmap));
            }
            return Ok(tlvs);
        }
        let rem = slice_skip(src, off);
        let ghost prev = tlvs@;
        let (t, n) = match Tlv::decode(rem) {
            Ok(p) => p,
            Err(e) => {
                return Err(e);
            },
        };
        proof {
            assert(sdrop(rem@, n as int) =~= sdrop(src@, off as int + n as int));
            assert(n >= 4);
        }
        tlvs.push(t);
        proof {
            assert(tlvs@ == prev.push(t));
            assert(tlvs@.map_values(tmap) =~= prev.map_values(tmap) + seq![t.mirror()]);
            match spec_decode_tlvs(sdrop(src@, off as int + n as int)) {
                Ok(rest2) => {
                    assert(prev.map_values(tmap) + (seq![t.mirror()] + rest2) =~= tlvs@.map_values(
                        tmap,
                    ) + rest2);
                },
                Err(_) => {},
            }
        }
        off = off + n;
    }
}

/// Round trip: decoding the concatenated encodings of well-formed TLVs
/// yields exactly those TLVs back.
#[verifier::rlimit(100)]
#[verifier::spinoff_prover]
pub proof fn lemma_tlvs_round_trip(ms: Seq<(TlvTag, u16, Seq<u8>)>)
    requires
        tlvs_mirror_wf(ms),
    ensures
        spec_decode_tlvs(tlvs_enc(ms)) == Ok::<Seq<(TlvTag, u16, Seq<u8>)>, DecodeError>(ms),
    decreases ms.len(),
{
    if ms.len() == 0 {
        assert(tlvs_enc(ms).len() == 0);
        assert(ms =~= Seq::<(TlvTag, u16, Seq<u8>)>::empty());
    } else {
        let rest_enc = tlvs_enc(ms.skip(1));
        let s = tlvs_enc(ms);
        let first = tlv_enc(ms[0].0, ms[0].1, ms[0].2);
        assert(first.len() == 4 + ms[0].2.len());
        assert(s == first + rest_enc);
        lemma_tlv_round_trip(ms[0].0, ms[0].1, ms[0].2, rest_enc);
        assert((ms[0].0, ms[0].1, ms[0].2) == ms[0]);
        assert(spec_decode_tlv(s) == Ok::<((TlvTag, u16, Seq<u8>), usize), DecodeError>(
            (ms[0], (4 + ms[0].1) as usize),
        ));
        lemma_add_then_skip(first, rest_enc);
        assert(sdrop(s, (4 + ms[0].1) as usize as int) == rest_enc);
        assert(tlvs_mirror_wf(ms.skip(1)));
        lemma_tlvs_round_trip(ms.skip(1));
        assert(seq![ms[0]] + ms.skip(1) =~= ms);
        assert(s.len() > 0);
        assert(spec_decode_tlvs(sdrop(s, (4 + ms[0].1) as usize as int)) == Ok::<
            Seq<(TlvTag, u16, Seq<u8>)>,
            DecodeError,
        >(ms.skip(1)));
        assert(spec_decode_tlvs(s) == Ok::<Seq<(TlvTag, u16, Seq<u8>)>, DecodeError>(
            seq![ms[0]] + ms.skip(1),
        ));
    }
}

/// What decoding a bounded array of TLVs yields: as [`spec_decode_tlvs`],
/// but refused when more than `max` elements would be produced.
pub open spec fn spec_decode_tlvs_bounded(s: Seq<u8>, max: usize) -> Result<
    Seq<(TlvTag, u16, Seq<u8>)>,
    DecodeError,
> {
    match spec_decode_tlvs(s) {
        Err(e) => Err(e),
        Ok(ms) => if ms.len() > max {
            Err(
                DecodeError {
                    kind: DecodeErrorKind::HeaplessVecDecodeError(
                        crate::errors::HeaplessVecDecodeError::TooManyElements { max },
                    ),
                },
            )
        } else {
            Ok(ms)
        },
    }
}

/// Reads TLVs until `src` is exhausted, refusing more than `max` of them,
/// as a fixed-capacity array would.
pub fn decode_tlvs_bounded(src: &[u8], max: usize) -> (r: Result<Vec<Tlv>, DecodeError>)
    ensures
        match r {
            Ok(v) => {
                &&& v@.len() <= max
                &&& forall|i: int| 0 <= i < v@.len() ==> (#[trigger] v@[i]).wf()
                &&& spec_decode_tlvs_bounded(src@, max) == Ok::<
                    Seq<(TlvTag, u16, Seq<u8>)>,
                    DecodeError,
                >(v@.map_values(|t: Tlv| t.mirror()))
            },
            Err(e) => spec_decode_tlvs_bounded(src@, max) == Err::<
                Seq<(TlvTag, u16, Seq<u8>)>,
                DecodeError,
            >(e),
        },
{
    let tlvs = match decode_tlvs(src) {
        Ok(v) => v,
        Err(e) => {
            return Err(e);
        },
    };
    if tlvs.len() > max {
        return Err(
            DecodeError::heapless_vec_decode_error(
                crate::errors::HeaplessVecDecodeError::TooManyElements { max },
            ),
        );
    }
    Ok(tlvs)
}

/// The total on-wire size of a run of TLVs.
#[verifier::loop_isolation(false)]
pub fn tlvs_total_length(tlvs: &Vec<Tlv>) -> (r: usize)
    requires
        forall|i: int| 0 <= i < tlvs@.len() ==> (#[trigger] tlvs@[i]).wf(),
        tlvs_enc(tlvs@.map_values(|t: Tlv| t.mirror())).len() <= usize::MAX,
    ensures
        r == tlvs_enc(tlvs@.map_values(|t: Tlv| t.mirror())).len(),
{
    let ghost tmap = |t: Tlv| t.mirror();
    let ghost ms = tlvs@.map_values(tmap);
    let mut total: usize = 0;
    let mut i: usize = 0;
    proof {
        assert(ms.skip(0) =~= ms);
    }
    loop
        invariant
            i <= tlvs@.len(),
            total + tlvs_enc(ms.skip(i as int)).len() == tlvs_enc(ms).len(),
        decreases tlvs@.len() - i,
    {
        if i == tlvs.len() {
            proof {
                assert(ms.skip(i as int).len() == 0);
                assert(tlvs_enc(ms.skip(i as int)) =~= Seq::<u8>::empty());
            }
            return total;
        }
        let n = tlvs[i].length();
        proof {
            assert(ms.skip(i as int)[0] == tmap(tlvs@[i as int]));
            assert(ms.skip(i as int).skip(1) =~= ms.skip(i as int + 1));
            assert(tlvs_enc(ms.skip(i as int)) == tlvs@[i as int].spec_encoded() + tlvs_enc(
                ms.skip(i as int + 1),
            ));
        }
        total = total + n;
        i += 1;
    }
}

} // verus!
