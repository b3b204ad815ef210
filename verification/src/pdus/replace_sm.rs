//! The `replace_sm` operation.
//!
//! Issued by the ESME to replace a previously submitted short message that
//! is pending delivery; the match is by `message_id` and source address.
//! The message text travels either inline, in `short_message` with its
//! length in `sm_length`, or in a trailing `message_payload` TLV; at most
//! one of the two may be non-empty.

use vstd::prelude::*;

use crate::codec::decode_u8;
use crate::codec::encode_u8_to;
use crate::codec::sdrop;
use crate::codec::slice_skip;
use crate::codec::spec_decode_u8;
use crate::codec::lemma_u8_round_trip;
use crate::codec::lemma_add_then_skip;
use crate::errors::DecodeError;
use crate::errors::IntegerDecodeError;
use crate::errors::OctetStringDecodeError;
use crate::strings::COctetString;
use crate::strings::EmptyOrFullCOctetString;
use crate::strings::OctetString;
use crate::strings::c_octet_wf;
use crate::strings::empty_or_full_wf;
use crate::strings::octet_wf;
use crate::strings::spec_decode_c_octet;
use crate::strings::spec_decode_empty_or_full;
use crate::strings::spec_decode_octet;
use crate::strings::lemma_c_octet_round_trip;
use crate::strings::lemma_empty_or_full_round_trip;
use crate::strings::lemma_octet_round_trip;
use crate::tlv::MessagePayload;
use crate::tlv::Tlv;
use crate::tlv::TlvTag;
use crate::tlv::TlvValue;
use crate::tlv::tlv_enc;
use crate::tlv::spec_decode_tlv;
use crate::tlv::lemma_tlv_round_trip;
use crate::values::Npi;
use crate::values::RegisteredDelivery;
use crate::values::Ton;

verus! {

/// The field values of a `replace_sm` body as they stand on the wire:
/// strings as byte sequences, the optional TLV as header and raw value.
pub struct ReplaceSmMirror {
    pub message_id: Seq<u8>,
    pub source_addr_ton: Ton,
    pub source_addr_npi: Npi,
    pub source_addr: Seq<u8>,
    pub schedule_delivery_time: Seq<u8>,
    pub validity_period: Seq<u8>,
    pub registered_delivery: u8,
    pub sm_default_msg_id: u8,
    pub sm_length: u8,
    pub short_message: Seq<u8>,
    pub message_payload: Option<(TlvTag, u16, Seq<u8>)>,
}

/// Well-formed `replace_sm` field values: every field within its wire
/// bounds, and `sm_length` equal to the length of `short_message`.
pub open spec fn replace_sm_mirror_wf(m: ReplaceSmMirror) -> bool {
    &&& c_octet_wf(m.message_id, 1, 65)
    &&& m.source_addr_ton.wf()
    &&& m.source_addr_npi.wf()
    &&& c_octet_wf(m.source_addr, 1, 21)
    &&& empty_or_full_wf(m.schedule_delivery_time, 17)
    &&& empty_or_full_wf(m.validity_period, 17)
    &&& octet_wf(m.short_message, 0, 255)
    &&& m.sm_length == m.short_message.len()
    &&& match m.message_payload {
        Some((tag, len, val)) => tag.wf() && len == val.len(),
        None => true,
    }
}

/// The on-wire form of a `replace_sm` body: the fields in declaration
/// order, the optional TLV last.
pub open spec fn replace_sm_enc(m: ReplaceSmMirror) -> Seq<u8> {
    m.message_id + seq![m.source_addr_ton.spec_to_u8()] + seq![m.source_addr_npi.spec_to_u8()]
        + m.source_addr + m.schedule_delivery_time + m.validity_period + seq![
        m.registered_delivery,
    ] + seq![m.sm_default_msg_id] + seq![m.sm_length] + m.short_message + match m
        .message_payload {
        Some((tag, len, val)) => tlv_enc(tag, len, val),
        None => Seq::<u8>::empty(),
    }
}

/// What decoding a `replace_sm` body from `s` yields. Fields are read in
/// order; `sm_length` gives `short_message` its byte budget; a trailing TLV
/// is read only if bytes remain.
pub open spec fn spec_decode_replace_sm(s: Seq<u8>) -> Result<(ReplaceSmMirror, usize), DecodeError> {
    match spec_decode_c_octet(s, 1, 65) {
        Err(e) => Err(DecodeError::spec_c_octet(e)),
        Ok((message_id, n1)) => {
            let s1 = sdrop(s, n1 as int);
            match spec_decode_u8(s1) {
                Err(e) => Err(DecodeError::spec_integer(e)),
                Ok((ton_b, _)) => {
                    let s2 = sdrop(s1, 1);
                    match spec_decode_u8(s2) {
                        Err(e) => Err(DecodeError::spec_integer(e)),
                        Ok((npi_b, _)) => {
                            let s3 = sdrop(s2, 1);
                            match spec_decode_c_octet(s3, 1, 21) {
                                Err(e) => Err(DecodeError::spec_c_octet(e)),
                                Ok((source_addr, n4)) => {
                                    let s4 = sdrop(s3, n4 as int);
                                    match spec_decode_empty_or_full(s4, 17) {
                                        Err(e) => Err(DecodeError::spec_c_octet(e)),
                                        Ok((sched, n5)) => {
                                            let s5 = sdrop(s4, n5 as int);
                                            match spec_decode_empty_or_full(s5, 17) {
                                                Err(e) => Err(DecodeError::spec_c_octet(e)),
                                                Ok((validity, n6)) => {
                                                    let s6 = sdrop(s5, n6 as int);
                                                    spec_decode_replace_sm_tail(
                                                        s,
                                                        s6,
                                                        message_id,
                                                        ton_b,
                                                        npi_b,
                                                        source_addr,
                                                        sched,
                                                        validity,
                                                        n1 + 2 + n4 + n5 + n6,
                                                    )
                                                },
                                            }
                                        },
                                    }
                                },
                            }
                        },
                    }
                },
            }
        },
    }
}

/// The tail of `spec_decode_replace_sm`, from `registered_delivery` on;
/// `used` counts the bytes the head consumed.
pub open spec fn spec_decode_replace_sm_tail(
    s: Seq<u8>,
    s6: Seq<u8>,
    message_id: Seq<u8>,
    ton_b: u8,
    npi_b: u8,
    source_addr: Seq<u8>,
    sched: Seq<u8>,
    validity: Seq<u8>,
    used: int,
) -> Result<(ReplaceSmMirror, usize), DecodeError> {
    match spec_decode_u8(s6) {
        Err(e) => Err(DecodeError::spec_integer(e)),
        Ok((rd, _)) => {
            let s7 = sdrop(s6, 1);
            match spec_decode_u8(s7) {
                Err(e) => Err(DecodeError::spec_integer(e)),
                Ok((smdid, _)) => {
                    let s8 = sdrop(s7, 1);
                    match spec_decode_u8(s8) {
                        Err(e) => Err(DecodeError::spec_integer(e)),
                        Ok((sm_len, _)) => {
                            let s9 = sdrop(s8, 1);
                            match spec_decode_octet(s9, sm_len as int, 0, 255) {
                                Err(e) => Err(DecodeError::spec_octet(e)),
                                Ok((short_message, n10)) => {
                                    let s10 = sdrop(s9, n10 as int);
                                    let m = ReplaceSmMirror {
                                        message_id,
                                        source_addr_ton: Ton::spec_from_u8(ton_b),
                                        source_addr_npi: Npi::spec_from_u8(npi_b),
                                        source_addr,
                                        schedule_delivery_time: sched,
                                        validity_period: validity,
                                        registered_delivery: rd,
                                        sm_default_msg_id: smdid,
                                        sm_length: sm_len,
                                        short_message,
                                        message_payload: None,
                                    };
                                    if s10.len() == 0 {
                                        Ok((m, (used + 3 + n10) as usize))
                                    } else {
                                        match spec_decode_tlv(s10) {
                                            Err(e) => Err(e),
                                            Ok((tm, nt)) => Ok(
                                                (
                                                    ReplaceSmMirror {
                                                        message_payload: Some(tm),
                                                        ..m
                                                    },
                                                    (used + 3 + n10 + nt) as usize,
                                                ),
                                            ),
                                        }
                                    }
                                },
                            }
                        },
                    }
                },
            }
        },
    }
}

/// This command is issued by the ESME to replace a previously submitted
/// short message that is pending delivery.
#[derive(Debug, Clone, PartialEq, Eq, Hash)]
pub struct ReplaceSm {
    /// Message ID of the message to be replaced, as the MC assigned it.
    pub message_id: COctetString<1, 65>,
    /// Type of Number of the original message's originator.
    pub source_addr_ton: Ton,
    /// Numbering Plan Indicator of the original message's source address.
    pub source_addr_npi: Npi,
    /// Address of the SME which originated the message.
    pub source_addr: COctetString<1, 21>,
    /// New scheduled delivery time; NULL keeps the original.
    pub schedule_delivery_time: EmptyOrFullCOctetString<17>,
    /// New expiry time; NULL keeps the original.
    pub validity_period: EmptyOrFullCOctetString<17>,
    /// Which delivery receipts and acknowledgements are requested.
    pub registered_delivery: RegisteredDelivery,
    /// Index of a canned message on the MC; NULL for none.
    pub sm_default_msg_id: u8,
    sm_length: u8,
    short_message: OctetString<0, 255>,
    message_payload: Option<Tlv>,
}

impl ReplaceSm {
    /// Spec-level accessors for the length-coupled private fields.
    pub closed spec fn spec_sm_length(self) -> u8 {
        self.sm_length
    }

    pub closed spec fn spec_short_message(self) -> OctetString<0, 255> {
        self.short_message
    }

    pub closed spec fn spec_message_payload(self) -> Option<Tlv> {
        self.message_payload
    }

    /// The type's invariant: every field within its wire bounds, and
    /// `sm_length` equal to the length of `short_message`.
    pub closed spec fn wf(self) -> bool {
        &&& self.message_id.wf()
        &&& self.source_addr_ton.wf()
        &&& self.source_addr_npi.wf()
        &&& self.source_addr.wf()
        &&& self.schedule_delivery_time.wf()
        &&& self.validity_period.wf()
        &&& self.spec_short_message().wf()
        &&& self.spec_sm_length() == self.spec_short_message()@.len()
        &&& match self.spec_message_payload() {
            Some(t) => t.wf(),
            None => true,
        }
    }

    /// The field values as they stand on the wire.
    pub closed spec fn mirror(self) -> ReplaceSmMirror {
        ReplaceSmMirror {
            message_id: self.message_id@,
            source_addr_ton: self.source_addr_ton,
            source_addr_npi: self.source_addr_npi,
            source_addr: self.source_addr@,
            schedule_delivery_time: self.schedule_delivery_time@,
            validity_period: self.validity_period@,
            registered_delivery: self.registered_delivery.value,
            sm_default_msg_id: self.sm_default_msg_id,
            sm_length: self.spec_sm_length(),
            short_message: self.spec_short_message()@,
            message_payload: match self.spec_message_payload() {
                Some(t) => Some(t.mirror()),
                None => None,
            },
        }
    }

    /// A well-formed value has well-formed wire fields.
    pub proof fn lemma_wf_mirror(self)
        requires
            self.wf(),
        ensures
            replace_sm_mirror_wf(self.mirror()),
    {
    }

    pub fn new(
        message_id: COctetString<1, 65>,
        source_addr_ton: Ton,
        source_addr_npi: Npi,
        source_addr: COctetString<1, 21>,
        schedule_delivery_time: EmptyOrFullCOctetString<17>,
        validity_period: EmptyOrFullCOctetString<17>,
        registered_delivery: RegisteredDelivery,
        sm_default_msg_id: u8,
        short_message: OctetString<0, 255>,
        message_payload: Option<MessagePayload>,
    ) -> (r: Self)
        requires
            message_id.wf(),
            source_addr_ton.wf(),
            source_addr_npi.wf(),
            source_addr.wf(),
            schedule_delivery_time.wf(),
            validity_period.wf(),
            short_message.wf(),
            message_payload matches Some(p) ==> p@.len() <= 0xFFFF,
        ensures
            r.wf(),
            r.spec_short_message() == short_message,
            r.mirror() == (ReplaceSmMirror {
                message_id: message_id@,
                source_addr_ton,
                source_addr_npi,
                source_addr: source_addr@,
                schedule_delivery_time: schedule_delivery_time@,
                validity_period: validity_period@,
                registered_delivery: registered_delivery.value,
                sm_default_msg_id,
                sm_length: short_message@.len() as u8,
                short_message: short_message@,
                message_payload: match message_payload {
                    Some(p) => Some((TlvTag::MessagePayload, p@.len() as u16, p@)),
                    None => None,
                },
            }),
    {
        let message_payload = match message_payload {
            Some(p) => Some(Tlv::new(TlvValue::MessagePayload(p))),
            None => None,
        };
        let sm_length = short_message.length() as u8;
        Self {
            message_id,
            source_addr_ton,
            source_addr_npi,
            source_addr,
            schedule_delivery_time,
            validity_period,
            registered_delivery,
            sm_default_msg_id,
            sm_length,
            short_message,
            message_payload,
        }
    }

    /// Creates a new [`ReplaceSm`], refusing the one combination the
    /// protocol forbids: a non-empty `short_message` next to a
    /// `message_payload` TLV.
    pub fn try_new(
        message_id: COctetString<1, 65>,
        source_addr_ton: Ton,
        source_addr_npi: Npi,
        source_addr: COctetString<1, 21>,
        schedule_delivery_time: EmptyOrFullCOctetString<17>,
        validity_period: EmptyOrFullCOctetString<17>,
        registered_delivery: RegisteredDelivery,
        sm_default_msg_id: u8,
        short_message: OctetString<0, 255>,
        message_payload: Option<MessagePayload>,
    ) -> (r: Option<Self>)
        requires
            message_id.wf(),
            source_addr_ton.wf(),
            source_addr_npi.wf(),
            source_addr.wf(),
            schedule_delivery_time.wf(),
            validity_period.wf(),
            short_message.wf(),
            message_payload matches Some(p) ==> p@.len() <= 0xFFFF,
        ensures
            r is None <==> (short_message@.len() > 0 && message_payload is Some),
            r matches Some(v) ==> {
                &&& v.wf()
                &&& v.spec_short_message() == short_message
                &&& v.mirror() == (ReplaceSmMirror {
                    message_id: message_id@,
                    source_addr_ton,
                    source_addr_npi,
                    source_addr: source_addr@,
                    schedule_delivery_time: schedule_delivery_time@,
                    validity_period: validity_period@,
                    registered_delivery: registered_delivery.value,
                    sm_default_msg_id,
                    sm_length: short_message@.len() as u8,
                    short_message: short_message@,
                    message_payload: match message_payload {
                        Some(p) => Some((TlvTag::MessagePayload, p@.len() as u16, p@)),
                        None => None,
                    },
                })
            },
    {
        let replace_sm = Self::new(
            message_id,
            source_addr_ton,
            source_addr_npi,
            source_addr,
            schedule_delivery_time,
            validity_period,
            registered_delivery,
            sm_default_msg_id,
            short_message,
            message_payload,
        );
        if replace_sm.short_message_exists() && replace_sm.message_payload_exists() {
            return None;
        }
        Some(replace_sm)
    }

    /// Length in octets of the `short_message` field.
    pub fn sm_length(&self) -> (r: u8)
        ensures
            r == self.mirror().sm_length,
            self.wf() ==> r == self.spec_short_message()@.len(),
    {
        self.sm_length
    }

    pub fn short_message(&self) -> (r: &OctetString<0, 255>)
        ensures
            r == self.spec_short_message(),
            r@ == self.mirror().short_message,
            self.wf() ==> r@.len() <= 255,
    {
        &self.short_message
    }

    pub fn message_payload_tlv(&self) -> (r: Option<&Tlv>)
        ensures
            match r {
                Some(t) => self.spec_message_payload() == Some(*t) && self.mirror().message_payload
                    == Some(t.mirror()),
                None => self.spec_message_payload() is None && self.mirror().message_payload
                    is None,
            },
    {
        match &self.message_payload {
            Some(t) => Some(t),
            None => None,
        }
    }

    /// Starts a builder on the all-NULL value: NULL strings, unknown
    /// numbering values, no message text, no TLV.
    pub fn builder() -> (r: ReplaceSmBuilder)
        ensures
            r.spec_inner().wf(),
            r.spec_inner().spec_short_message()@ == Seq::<u8>::empty(),
            r.spec_inner().spec_message_payload() is None,
            r.spec_inner().mirror() == (ReplaceSmMirror {
                message_id: seq![0u8],
                source_addr_ton: Ton::Unknown,
                source_addr_npi: Npi::Unknown,
                source_addr: seq![0u8],
                schedule_delivery_time: seq![0u8],
                validity_period: seq![0u8],
                registered_delivery: 0,
                sm_default_msg_id: 0,
                sm_length: 0,
                short_message: Seq::<u8>::empty(),
                message_payload: None,
            }),
    {
        ReplaceSmBuilder::new()
    }

    /// Sets the `short_message` and `sm_length` together and drops any
    /// `message_payload` TLV: the two carriers of the message text never
    /// stay non-empty side by side.
    pub fn set_short_message(&mut self, short_message: OctetString<0, 255>)
        requires
            short_message.wf(),
        ensures
            final(self).spec_short_message() == short_message,
            final(self).spec_message_payload() is None,
            final(self).mirror() == (ReplaceSmMirror {
                sm_length: short_message@.len() as u8,
                short_message: short_message@,
                message_payload: None,
                ..old(self).mirror()
            }),
            old(self).wf() ==> final(self).wf(),
    {
        self.short_message = short_message;
        self.sm_length = self.short_message.length() as u8;
        self.message_payload = None;
    }

    /// Attempts to set the `short_message` and `sm_length`; refused when a
    /// `message_payload` TLV is present.
    pub fn try_set_short_message(&mut self, short_message: OctetString<0, 255>) -> (r: bool)
        requires
            short_message.wf(),
        ensures
            r == (old(self).spec_message_payload() is None),
            r ==> {
                &&& final(self).spec_short_message() == short_message
                &&& final(self).spec_message_payload() is None
                &&& final(self).mirror() == (ReplaceSmMirror {
                    sm_length: short_message@.len() as u8,
                    short_message: short_message@,
                    ..old(self).mirror()
                })
                &&& (old(self).wf() ==> final(self).wf())
            },
            !r ==> *final(self) == *old(self),
    {
        if !self.message_payload_exists() {
            self.set_short_message(short_message);
            return true;
        }
        false
    }

    /// Sets or clears the `message_payload` TLV. Setting one empties the
    /// `short_message`, which the TLV supersedes; clearing leaves the
    /// `short_message` as it stands.
    pub fn set_message_payload(&mut self, message_payload: Option<MessagePayload>)
        requires
            message_payload matches Some(p) ==> p@.len() <= 0xFFFF,
        ensures
            match message_payload {
                Some(p) => {
                    &&& final(self).spec_message_payload() matches Some(t) && t.wf()
                    &&& final(self).spec_short_message()@ == Seq::<u8>::empty()
                    &&& final(self).mirror() == (ReplaceSmMirror {
                        message_payload: Some((TlvTag::MessagePayload, p@.len() as u16, p@)),
                        sm_length: 0,
                        short_message: Seq::<u8>::empty(),
                        ..old(self).mirror()
                    })
                },
                None => {
                    &&& final(self).spec_message_payload() is None
                    &&& final(self).spec_short_message() == old(self).spec_short_message()
                    &&& final(self).mirror() == (ReplaceSmMirror {
                        message_payload: None,
                        ..old(self).mirror()
                    })
                },
            },
            old(self).wf() ==> final(self).wf(),
    {
        match message_payload {
            Some(p) => {
                self.message_payload = Some(Tlv::new(TlvValue::MessagePayload(p)));
                self.short_message = OctetString::empty();
                self.sm_length = 0;
            },
            None => {
                self.message_payload = None;
            },
        }
    }

    /// Attempts to set the `message_payload` TLV; refused when it would
    /// stand next to a non-empty `short_message`.
    pub fn try_set_message_payload(&mut self, message_payload: Option<MessagePayload>) -> (r: bool)
        requires
            message_payload matches Some(p) ==> p@.len() <= 0xFFFF,
        ensures
            r == !(message_payload is Some && old(self).spec_short_message()@.len() > 0),
            r ==> {
                &&& final(self).spec_short_message()@ == old(self).spec_short_message()@
                &&& match message_payload {
                    Some(p) => final(self).mirror() == (ReplaceSmMirror {
                        message_payload: Some((TlvTag::MessagePayload, p@.len() as u16, p@)),
                        sm_length: 0,
                        short_message: Seq::<u8>::empty(),
                        ..old(self).mirror()
                    }),
                    None => final(self).mirror() == (ReplaceSmMirror {
                        message_payload: None,
                        ..old(self).mirror()
                    }),
                }
                &&& (old(self).wf() ==> final(self).wf())
            },
            !r ==> *final(self) == *old(self),
    {
        let payload_present = match &message_payload {
            Some(_) => true,
            None => false,
        };
        if payload_present && self.short_message_exists() {
            return false;
        }
        self.set_message_payload(message_payload);
        true
    }

    /// Clears the `short_message` and sets `sm_length` to zero.
    pub fn clear_short_message(&mut self)
        ensures
            final(self).spec_message_payload() == old(self).spec_message_payload(),
            final(self).spec_short_message()@ == Seq::<u8>::empty(),
            final(self).spec_sm_length() == 0,
            final(self).mirror() == (ReplaceSmMirror {
                sm_length: 0,
                short_message: Seq::<u8>::empty(),
                ..old(self).mirror()
            }),
            old(self).wf() ==> final(self).wf(),
    {
        self.short_message = OctetString::empty();
        self.sm_length = 0;
    }

    /// Whether a `message_payload` TLV is present.
    pub fn message_payload_exists(&self) -> (r: bool)
        ensures
            r == (self.spec_message_payload() is Some),
            r == (self.mirror().message_payload is Some),
    {
        match &self.message_payload {
            Some(_) => true,
            None => false,
        }
    }

    /// Whether the `short_message` carries any bytes.
    pub fn short_message_exists(&self) -> (r: bool)
        ensures
            r == (self.mirror().short_message.len() > 0),
            r == (self.spec_short_message()@.len() > 0),
    {
        !self.short_message.is_empty()
    }

    /// Appends the on-wire form of the body.
    pub fn encode_to(&self, dst: &mut Vec<u8>)
        ensures
            final(dst)@ == old(dst)@ + replace_sm_enc(self.mirror()),
    {
        self.message_id.encode_to(dst);
        encode_u8_to(self.source_addr_ton.to_u8(), dst);
        encode_u8_to(self.source_addr_npi.to_u8(), dst);
        self.source_addr.encode_to(dst);
        self.schedule_delivery_time.encode_to(dst);
        self.validity_period.encode_to(dst);
        encode_u8_to(self.registered_delivery.value, dst);
        encode_u8_to(self.sm_default_msg_id, dst);
        encode_u8_to(self.sm_length, dst);
        self.short_message.encode_to(dst);
        match &self.message_payload {
            Some(t) => t.encode_to(dst),
            None => (),
        }
        assert(final(dst)@ =~= old(dst)@ + replace_sm_enc(self.mirror()));
    }

    /// Total size of the body in bytes.
    pub fn length(&self) -> (r: usize)
        requires
            self.wf(),
        ensures
            r == replace_sm_enc(self.mirror()).len(),
    {
        let payload_len = match &self.message_payload {
            Some(t) => t.length(),
            None => 0,
        };
        self.message_id.length() + 2 + self.source_addr.length()
            + self.schedule_delivery_time.length() + self.validity_period.length() + 3
            + self.short_message.length() + payload_len
    }

    /// Reads a whole `replace_sm` body off the front of `src`.
    #[verifier::rlimit(100)]
    #[verifier::spinoff_prover]
    pub fn decode(src: &[u8]) -> (r: Result<(Self, usize), DecodeError>)
        ensures
            match r {
                Ok((v, n)) => {
                    &&& v.wf()
                    &&& n <= src@.len()
                    &&& spec_decode_replace_sm(src@) == Ok::<(ReplaceSmMirror, usize), DecodeError>(
                        (v.mirror(), n),
                    )
                },
                Err(e) => spec_decode_replace_sm(src@) == Err::<
                    (ReplaceSmMirror, usize),
                    DecodeError,
                >(e),
            },
    {
        let mut off: usize = 0;
        let (message_id, n1) = match COctetString::<1, 65>::decode(src) {
            Ok(p) => p,
            Err(e) => {
                return Err(DecodeError::c_octet_string_decode_error(e));
            },
        };
        off = n1;
        let rem = slice_skip(src, off);
        let (ton_b, _) = match decode_u8(rem) {
            Ok(p) => p,
            Err(e) => {
                return Err(DecodeError::integer_decode_error(e));
            },
        };
        proof {
            assert(sdrop(src@, off as int).skip(1) =~= sdrop(src@, off + 1));
        }
        off = off + 1;
        let rem = slice_skip(src, off);
        let (npi_b, _) = match decode_u8(rem) {
            Ok(p) => p,
            Err(e) => {
                return Err(DecodeError::integer_decode_error(e));
            },
        };
        proof {
            assert(sdrop(src@, off as int).skip(1) =~= sdrop(src@, off + 1));
        }
        off = off + 1;
        let rem = slice_skip(src, off);
        let (source_addr, n4) = match COctetString::<1, 21>::decode(rem) {
            Ok(p) => p,
            Err(e) => {
                return Err(DecodeError::c_octet_string_decode_error(e));
            },
        };
        proof {
            assert(sdrop(src@, off as int).skip(n4 as int) =~= sdrop(src@, off + n4));
        }
        off = off + n4;
        let rem = slice_skip(src, off);
        let (sched, n5) = match EmptyOrFullCOctetString::<17>::decode(rem) {
            Ok(p) => p,
            Err(e) => {
                return Err(DecodeError::c_octet_string_decode_error(e));
            },
        };
        proof {
            assert(sdrop(src@, off as int).skip(n5 as int) =~= sdrop(src@, off + n5));
        }
        off = off + n5;
        let rem = slice_skip(src, off);
        let (validity, n6) = match EmptyOrFullCOctetString::<17>::decode(rem) {
            Ok(p) => p,
            Err(e) => {
                return Err(DecodeError::c_octet_string_decode_error(e));
            },
        };
        proof {
            assert(sdrop(src@, off as int).skip(n6 as int) =~= sdrop(src@, off + n6));
        }
        off = off + n6;
        let rem = slice_skip(src, off);
        let (rd, _) = match decode_u8(rem) {
            Ok(p) => p,
            Err(e) => {
                return Err(DecodeError::integer_decode_error(e));
            },
        };
        proof {
            assert(sdrop(src@, off as int).skip(1) =~= sdrop(src@, off + 1));
        }
        off = off + 1;
        let rem = slice_skip(src, off);
        let (smdid, _) = match decode_u8(rem) {
            Ok(p) => p,
            Err(e) => {
                return Err(DecodeError::integer_decode_error(e));
            },
        };
        proof {
            assert(sdrop(src@, off as int).skip(1) =~= sdrop(src@, off + 1));
        }
        off = off + 1;
        let rem = slice_skip(src, off);
        let (sm_len, _) = match decode_u8(rem) {
            Ok(p) => p,
            Err(e) => {
                return Err(DecodeError::integer_decode_error(e));
            },
        };
        proof {
            assert(sdrop(src@, off as int).skip(1) =~= sdrop(src@, off + 1));
        }
        off = off + 1;
        let rem = slice_skip(src, off);
        let (short_message, n10) = match OctetString::<0, 255>::decode(rem, sm_len as usize) {
            Ok(p) => p,
            Err(e) => {
                return Err(DecodeError::octet_string_decode_error(e));
            },
        };
        proof {
            assert(sdrop(src@, off as int).skip(n10 as int) =~= sdrop(src@, off + n10));
        }
        off = off + n10;
        let rem = slice_skip(src, off);
        let message_payload = if rem.len() == 0 {
            None
        } else {
            let (t, nt) = match Tlv::decode(rem) {
                Ok(p) => p,
                Err(e) => {
                    return Err(e);
                },
            };
            off = off + nt;
            Some(t)
        };
        let v = Self {
            message_id,
            source_addr_ton: Ton::from_u8(ton_b),
            source_addr_npi: Npi::from_u8(npi_b),
            source_addr,
            schedule_delivery_time: sched,
            validity_period: validity,
            registered_delivery: RegisteredDelivery::new(rd),
            sm_default_msg_id: smdid,
            sm_length: sm_len,
            short_message,
            message_payload,
        };
        Ok((v, off))
    }
}

/// The on-wire form of the fields `spec_decode_replace_sm_tail` reads.
pub open spec fn replace_sm_tail_enc(m: ReplaceSmMirror) -> Seq<u8> {
    seq![m.registered_delivery] + seq![m.sm_default_msg_id] + seq![m.sm_length] + m.short_message
        + match m.message_payload {
        Some((tag, len, val)) => tlv_enc(tag, len, val),
        None => Seq::<u8>::empty(),
    }
}

/// Round trip of the body's tail, from `registered_delivery` on.
#[verifier::rlimit(100)]
#[verifier::spinoff_prover]
proof fn lemma_replace_sm_tail_round_trip(m: ReplaceSmMirror, s: Seq<u8>, used: int)
    requires
        replace_sm_mirror_wf(m),
        0 <= used,
        used + replace_sm_tail_enc(m).len() <= usize::MAX,
    ensures
        spec_decode_replace_sm_tail(
            s,
            replace_sm_tail_enc(m),
            m.message_id,
            m.source_addr_ton.spec_to_u8(),
            m.source_addr_npi.spec_to_u8(),
            m.source_addr,
            m.schedule_delivery_time,
            m.validity_period,
            used,
        ) == Ok::<(ReplaceSmMirror, usize), DecodeError>(
            (m, (used + replace_sm_tail_enc(m).len()) as usize),
        ),
{
    let tail_payload = match m.message_payload {
        Some((tag, len, val)) => tlv_enc(tag, len, val),
        None => Seq::<u8>::empty(),
    };
    let t10 = m.short_message + tail_payload;
    let t9 = seq![m.sm_length] + t10;
    let t8 = seq![m.sm_default_msg_id] + t9;
    let s6 = replace_sm_tail_enc(m);
    assert(s6 =~= seq![m.registered_delivery] + t8);

    lemma_u8_round_trip(m.registered_delivery, t8);
    lemma_add_then_skip(seq![m.registered_delivery], t8);
    assert(sdrop(s6, 1) == t8);
    assert(crate::codec::spec_decode_u8(s6) == Ok::<(u8, usize), IntegerDecodeError>(
        (m.registered_delivery, 1),
    ));

    lemma_u8_round_trip(m.sm_default_msg_id, t9);
    lemma_add_then_skip(seq![m.sm_default_msg_id], t9);
    assert(sdrop(t8, 1) == t9);
    assert(crate::codec::spec_decode_u8(t8) == Ok::<(u8, usize), IntegerDecodeError>(
        (m.sm_default_msg_id, 1),
    ));

    lemma_u8_round_trip(m.sm_length, t10);
    lemma_add_then_skip(seq![m.sm_length], t10);
    assert(sdrop(t9, 1) == t10);
    assert(crate::codec::spec_decode_u8(t9) == Ok::<(u8, usize), IntegerDecodeError>(
        (m.sm_length, 1),
    ));

    lemma_octet_round_trip(m.short_message, tail_payload, 0, 255);
    lemma_add_then_skip(m.short_message, tail_payload);
    assert(sdrop(t10, m.short_message.len() as int) == tail_payload);
    assert(spec_decode_octet(t10, m.sm_length as int, 0, 255) == Ok::<
        (Seq<u8>, usize),
        OctetStringDecodeError,
    >((m.short_message, m.short_message.len() as usize)));

    match m.message_payload {
        Some((tag, len, val)) => {
            lemma_tlv_round_trip(tag, len, val, Seq::<u8>::empty());
            assert(tlv_enc(tag, len, val) + Seq::<u8>::empty() =~= tlv_enc(tag, len, val));
            assert(tail_payload.len() > 0);
        },
        None => {
            assert(tail_payload.len() == 0);
        },
    }
}

/// Round trip: decoding the encoding of well-formed `replace_sm` field
/// values yields exactly those values and consumes the whole encoding.
#[verifier::rlimit(100)]
#[verifier::spinoff_prover]
pub proof fn lemma_replace_sm_round_trip(m: ReplaceSmMirror)
    requires
        replace_sm_mirror_wf(m),
    ensures
        spec_decode_replace_sm(replace_sm_enc(m)) == Ok::<(ReplaceSmMirror, usize), DecodeError>(
            (m, replace_sm_enc(m).len() as usize),
        ),
{
    let t6 = replace_sm_tail_enc(m);
    let t5 = m.validity_period + t6;
    let t4 = m.schedule_delivery_time + t5;
    let t3 = m.source_addr + t4;
    let t2 = seq![m.source_addr_npi.spec_to_u8()] + t3;
    let t1 = seq![m.source_addr_ton.spec_to_u8()] + t2;
    let s = replace_sm_enc(m);
    assert(s =~= m.message_id + t1);

    lemma_c_octet_round_trip(m.message_id, t1, 1, 65);
    lemma_add_then_skip(m.message_id, t1);
    assert(sdrop(s, m.message_id.len() as int) == t1);

    lemma_u8_round_trip(m.source_addr_ton.spec_to_u8(), t2);
    lemma_add_then_skip(seq![m.source_addr_ton.spec_to_u8()], t2);
    assert(sdrop(t1, 1) == t2);

    lemma_u8_round_trip(m.source_addr_npi.spec_to_u8(), t3);
    lemma_add_then_skip(seq![m.source_addr_npi.spec_to_u8()], t3);
    assert(sdrop(t2, 1) == t3);

    lemma_c_octet_round_trip(m.source_addr, t4, 1, 21);
    lemma_add_then_skip(m.source_addr, t4);
    assert(sdrop(t3, m.source_addr.len() as int) == t4);

    lemma_empty_or_full_round_trip(m.schedule_delivery_time, t5, 17);
    lemma_add_then_skip(m.schedule_delivery_time, t5);
    assert(sdrop(t4, m.schedule_delivery_time.len() as int) == t5);

    lemma_empty_or_full_round_trip(m.validity_period, t6, 17);
    lemma_add_then_skip(m.validity_period, t6);
    assert(sdrop(t5, m.validity_period.len() as int) == t6);

    let used = m.message_id.len() + 2 + m.source_addr.len() + m.schedule_delivery_time.len()
        + m.validity_period.len();
    assert(s.len() == used + t6.len());
    lemma_replace_sm_tail_round_trip(m, s, used as int);
}

/// A builder for [`ReplaceSm`], starting from the all-NULL value; its
/// fallible setters refuse the combinations the protocol forbids.
#[derive(Debug)]
pub struct ReplaceSmBuilder {
    inner: ReplaceSm,
}

impl ReplaceSmBuilder {
    /// The value built so far.
    pub closed spec fn spec_inner(self) -> ReplaceSm {
        self.inner
    }

    pub fn new() -> (r: Self)
        ensures
            r.spec_inner().wf(),
            r.spec_inner().spec_short_message()@ == Seq::<u8>::empty(),
            r.spec_inner().spec_message_payload() is None,
            r.spec_inner().mirror() == (ReplaceSmMirror {
                message_id: seq![0u8],
                source_addr_ton: Ton::Unknown,
                source_addr_npi: Npi::Unknown,
                source_addr: seq![0u8],
                schedule_delivery_time: seq![0u8],
                validity_period: seq![0u8],
                registered_delivery: 0,
                sm_default_msg_id: 0,
                sm_length: 0,
                short_message: Seq::<u8>::empty(),
                message_payload: None,
            }),
    {
        let inner = ReplaceSm {
            message_id: COctetString::null(),
            source_addr_ton: Ton::Unknown,
            source_addr_npi: Npi::Unknown,
            source_addr: COctetString::null(),
            schedule_delivery_time: EmptyOrFullCOctetString::empty(),
            validity_period: EmptyOrFullCOctetString::empty(),
            registered_delivery: RegisteredDelivery::none(),
            sm_default_msg_id: 0,
            sm_length: 0,
            short_message: OctetString::empty(),
            message_payload: None,
        };
        Self { inner }
    }

    pub fn message_id(self, message_id: COctetString<1, 65>) -> (r: Self)
        ensures
            r.spec_inner().mirror() == (ReplaceSmMirror { message_id: message_id@, ..self.spec_inner().mirror() }),
            self.spec_inner().wf() && message_id.wf() ==> r.spec_inner().wf(),
    {
        let mut inner = self.inner;
        inner.message_id = message_id;
        Self { inner }
    }

    pub fn source_addr_ton(self, source_addr_ton: Ton) -> (r: Self)
        ensures
            r.spec_inner().mirror() == (ReplaceSmMirror { source_addr_ton: source_addr_ton, ..self.spec_inner().mirror() }),
            self.spec_inner().wf() && source_addr_ton.wf() ==> r.spec_inner().wf(),
    {
        let mut inner = self.inner;
        inner.source_addr_ton = source_addr_ton;
        Self { inner }
    }

    pub fn source_addr_npi(self, source_addr_npi: Npi) -> (r: Self)
        ensures
            r.spec_inner().mirror() == (ReplaceSmMirror { source_addr_npi: source_addr_npi, ..self.spec_inner().mirror() }),
            self.spec_inner().wf() && source_addr_npi.wf() ==> r.spec_inner().wf(),
    {
        let mut inner = self.inner;
        inner.source_addr_npi = source_addr_npi;
        Self { inner }
    }

    pub fn source_addr(self, source_addr: COctetString<1, 21>) -> (r: Self)
        ensures
            r.spec_inner().mirror() == (ReplaceSmMirror { source_addr: source_addr@, ..self.spec_inner().mirror() }),
            self.spec_inner().wf() && source_addr.wf() ==> r.spec_inner().wf(),
    {
        let mut inner = self.inner;
        inner.source_addr = source_addr;
        Self { inner }
    }

    pub fn schedule_delivery_time(
        self,
        schedule_delivery_time: EmptyOrFullCOctetString<17>,
    ) -> (r: Self)
        ensures
            r.spec_inner().mirror() == (ReplaceSmMirror { schedule_delivery_time: schedule_delivery_time@, ..self.spec_inner().mirror() }),
            self.spec_inner().wf() && schedule_delivery_time.wf() ==> r.spec_inner().wf(),
    {
        let mut inner = self.inner;
        inner.schedule_delivery_time = schedule_delivery_time;
        Self { inner }
    }

    pub fn validity_period(self, validity_period: EmptyOrFullCOctetString<17>) -> (r: Self)
        ensures
            r.spec_inner().mirror() == (ReplaceSmMirror { validity_period: validity_period@, ..self.spec_inner().mirror() }),
            self.spec_inner().wf() && validity_period.wf() ==> r.spec_inner().wf(),
    {
        let mut inner = self.inner;
        inner.validity_period = validity_period;
        Self { inner }
    }

    pub fn registered_delivery(self, registered_delivery: RegisteredDelivery) -> (r: Self)
        ensures
            r.spec_inner().mirror() == (ReplaceSmMirror {
                registered_delivery: registered_delivery.value,
                ..self.spec_inner().mirror()
            }),
            self.spec_inner().wf() ==> r.spec_inner().wf(),
    {
        let mut inner = self.inner;
        inner.registered_delivery = registered_delivery;
        Self { inner }
    }

    pub fn sm_default_msg_id(self, sm_default_msg_id: u8) -> (r: Self)
        ensures
            r.spec_inner().mirror() == (ReplaceSmMirror {
                sm_default_msg_id,
                ..self.spec_inner().mirror()
            }),
            self.spec_inner().wf() ==> r.spec_inner().wf(),
    {
        let mut inner = self.inner;
        inner.sm_default_msg_id = sm_default_msg_id;
        Self { inner }
    }

    /// Sets the `short_message`, adjusting `sm_length` with it and dropping
    /// any `message_payload` TLV, which the inline text displaces.
    pub fn short_message(self, short_message: OctetString<0, 255>) -> (r: Self)
        requires
            short_message.wf(),
        ensures
            r.spec_inner().spec_short_message() == short_message,
            r.spec_inner().spec_message_payload() is None,
            r.spec_inner().mirror() == (ReplaceSmMirror {
                sm_length: short_message@.len() as u8,
                short_message: short_message@,
                message_payload: None,
                ..self.spec_inner().mirror()
            }),
            self.spec_inner().wf() ==> r.spec_inner().wf(),
    {
        let mut inner = self.inner;
        inner.set_short_message(short_message);
        Self { inner }
    }

    /// Sets or clears the `message_payload` TLV; setting one empties the
    /// `short_message`, which the TLV supersedes.
    pub fn message_payload(self, message_payload: Option<MessagePayload>) -> (r: Self)
        requires
            message_payload matches Some(p) ==> p@.len() <= 0xFFFF,
        ensures
            match message_payload {
                Some(p) => {
                    &&& r.spec_inner().spec_short_message()@ == Seq::<u8>::empty()
                    &&& r.spec_inner().mirror() == (ReplaceSmMirror {
                        message_payload: Some((TlvTag::MessagePayload, p@.len() as u16, p@)),
                        sm_length: 0,
                        short_message: Seq::<u8>::empty(),
                        ..self.spec_inner().mirror()
                    })
                },
                None => {
                    &&& r.spec_inner().spec_short_message() == self.spec_inner().spec_short_message()
                    &&& r.spec_inner().mirror() == (ReplaceSmMirror {
                        message_payload: None,
                        ..self.spec_inner().mirror()
                    })
                },
            },
            self.spec_inner().wf() ==> r.spec_inner().wf(),
    {
        let mut inner = self.inner;
        inner.set_message_payload(message_payload);
        Self { inner }
    }

    pub fn build(self) -> (r: ReplaceSm)
        ensures
            r == self.spec_inner(),
    {
        self.inner
    }

    /// As [`Self::short_message`], but absent when a `message_payload` TLV
    /// is already present.
    pub fn try_short_message(self, short_message: OctetString<0, 255>) -> (r: Option<Self>)
        requires
            short_message.wf(),
        ensures
            r is Some <==> self.spec_inner().spec_message_payload() is None,
            r matches Some(b) ==> {
                &&& b.spec_inner().spec_short_message() == short_message
                &&& b.spec_inner().mirror() == (ReplaceSmMirror {
                    sm_length: short_message@.len() as u8,
                    short_message: short_message@,
                    ..self.spec_inner().mirror()
                })
                &&& (self.spec_inner().wf() ==> b.spec_inner().wf())
            },
    {
        let mut inner = self.inner;
        if inner.try_set_short_message(short_message) {
            Some(Self { inner })
        } else {
            None
        }
    }

    /// As [`Self::message_payload`], but absent when the `short_message` is
    /// non-empty.
    pub fn try_message_payload(self, message_payload: Option<MessagePayload>) -> (r: Option<Self>)
        requires
            message_payload matches Some(p) ==> p@.len() <= 0xFFFF,
        ensures
            r is Some <==> !(message_payload is Some && self.spec_inner().spec_short_message()@.len()
                > 0),
            r matches Some(b) ==> {
                &&& b.spec_inner().spec_short_message()@ == self.spec_inner().spec_short_message()@
                &&& match message_payload {
                    Some(p) => b.spec_inner().mirror() == (ReplaceSmMirror {
                        message_payload: Some((TlvTag::MessagePayload, p@.len() as u16, p@)),
                        sm_length: 0,
                        short_message: Seq::<u8>::empty(),
                        ..self.spec_inner().mirror()
                    }),
                    None => b.spec_inner().mirror() == (ReplaceSmMirror {
                        message_payload: None,
                        ..self.spec_inner().mirror()
                    }),
                }
                &&& (self.spec_inner().wf() ==> b.spec_inner().wf())
            },
    {
        let mut inner = self.inner;
        if inner.try_set_message_payload(message_payload) {
            Some(Self { inner })
        } else {
            None
        }
    }
}

impl Default for ReplaceSmBuilder {
    fn default() -> (r: Self)
        ensures
            r.spec_inner().wf(),
            r.spec_inner().spec_short_message()@ == Seq::<u8>::empty(),
            r.spec_inner().spec_message_payload() is None,
            r.spec_inner().mirror() == (ReplaceSmMirror {
                message_id: seq![0u8],
                source_addr_ton: Ton::Unknown,
                source_addr_npi: Npi::Unknown,
                source_addr: seq![0u8],
                schedule_delivery_time: seq![0u8],
                validity_period: seq![0u8],
                registered_delivery: 0,
                sm_default_msg_id: 0,
                sm_length: 0,
                short_message: Seq::<u8>::empty(),
                message_payload: None,
            }),
    {
        Self::new()
    }
}

} // verus!
