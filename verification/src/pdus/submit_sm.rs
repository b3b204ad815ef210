//! The `submit_sm` operation and its response.
//!
//! Issued by the ESME to submit a short message to the MC for delivery. The
//! message text travels either inline, in `short_message` with its length in
//! `sm_length`, or in a `message_payload` TLV among the trailing optional
//! parameters; at most one of the two may be non-empty.

use vstd::prelude::*;

use crate::codec::decode_u8;
use crate::codec::encode_u8_to;
use crate::codec::sdrop;
use crate::codec::slice_skip;
use crate::codec::spec_decode_u8;
use crate::codec::lemma_u8_round_trip;
use crate::codec::lemma_add_then_skip;
use crate::errors::DecodeError;
use crate::errors::IntegerDecodeError;
use crate::errors::COctetStringDecodeError;
use crate::errors::OctetStringDecodeError;
use crate::strings::COctetString;
use crate::strings::EmptyOrFullCOctetString;
use crate::strings::OctetString;
use crate::strings::c_octet_wf;
use crate::strings::empty_or_full_wf;
use crate::strings::octet_wf;
use crate::strings::spec_decode_c_octet;
use crate::strings::spec_decode_empty_or_full;
use crate::strings::spec_decode_octet;
use crate::strings::lemma_c_octet_round_trip;
use crate::strings::lemma_empty_or_full_round_trip;
use crate::strings::lemma_octet_round_trip;
use crate::tlv::Tlv;
use crate::tlv::TlvTag;
use crate::tlv::tlvs_enc;
use crate::tlv::tlvs_mirror_wf;
use crate::tlv::spec_decode_tlvs;
use crate::tlv::decode_tlvs;
use crate::tlv::encode_tlvs_to;
use crate::tlv::tlvs_total_length;
use crate::tlv::lemma_tlvs_round_trip;
use crate::values::Npi;
use crate::values::RegisteredDelivery;
use crate::values::Ton;

verus! {

/// The field values of a `submit_sm` body as they stand on the wire.
pub struct SubmitSmMirror {
    pub service_type: Seq<u8>,
    pub source_addr_ton: Ton,
    pub source_addr_npi: Npi,
    pub source_addr: Seq<u8>,
    pub dest_addr_ton: Ton,
    pub dest_addr_npi: Npi,
    pub destination_addr: Seq<u8>,
    pub esm_class: u8,
    pub protocol_id: u8,
    pub priority_flag: u8,
    pub schedule_delivery_time: Seq<u8>,
    pub validity_period: Seq<u8>,
    pub registered_delivery: u8,
    pub replace_if_present_flag: u8,
    pub data_coding: u8,
    pub sm_default_msg_id: u8,
    pub sm_length: u8,
    pub short_message: Seq<u8>,
    pub tlvs: Seq<(TlvTag, u16, Seq<u8>)>,
}

/// Whether a run of TLVs carries a `message_payload`.
pub open spec fn has_message_payload(ms: Seq<(TlvTag, u16, Seq<u8>)>) -> bool {
    exists|i: int| 0 <= i < ms.len() && (#[trigger] ms[i]).0 == TlvTag::MessagePayload
}

/// The optional parameters with every `message_payload` element dropped,
/// the others kept in order.
pub open spec fn without_message_payload(ms: Seq<(TlvTag, u16, Seq<u8>)>) -> Seq<
    (TlvTag, u16, Seq<u8>),
> {
    ms.filter(|m: (TlvTag, u16, Seq<u8>)| m.0 != TlvTag::MessagePayload)
}

/// Dropping the payload elements keeps a payload-free run unchanged.
pub proof fn lemma_without_payload_identity(ms: Seq<(TlvTag, u16, Seq<u8>)>)
    requires
        !has_message_payload(ms),
    ensures
        without_message_payload(ms) == ms,
    decreases ms.len(),
{
    reveal(Seq::filter);
    if ms.len() == 0 {
        assert(without_message_payload(ms) =~= ms);
    } else {
        assert(!has_message_payload(ms.drop_last())) by {
            if has_message_payload(ms.drop_last()) {
                let i = choose|i: int|
                    0 <= i < ms.drop_last().len() && (#[trigger] ms.drop_last()[i]).0
                        == TlvTag::MessagePayload;
                assert(ms[i] == ms.drop_last()[i]);
                assert(ms[i].0 == TlvTag::MessagePayload);
            }
        }
        lemma_without_payload_identity(ms.drop_last());
        assert(ms[ms.len() - 1].0 != TlvTag::MessagePayload);
        assert(ms.drop_last().push(ms.last()) =~= ms);
    }
}

/// No payload element survives the drop.
pub proof fn lemma_without_payload_clean(ms: Seq<(TlvTag, u16, Seq<u8>)>)
    ensures
        !has_message_payload(without_message_payload(ms)),
    decreases ms.len(),
{
    reveal(Seq::filter);
    let w = without_message_payload(ms);
    if ms.len() == 0 {
        assert(w.len() == 0);
    } else {
        lemma_without_payload_clean(ms.drop_last());
        let prev = without_message_payload(ms.drop_last());
        if ms.last().0 != TlvTag::MessagePayload {
            assert(w == prev.push(ms.last()));
            if has_message_payload(w) {
                let i = choose|i: int|
                    0 <= i < w.len() && (#[trigger] w[i]).0 == TlvTag::MessagePayload;
                if i < prev.len() {
                    assert(prev[i].0 == TlvTag::MessagePayload);
                }
            }
        } else {
            assert(w == prev);
        }
    }
}

/// Dropping the payload elements commutes with appending one element.
proof fn lemma_without_payload_step(ms: Seq<(TlvTag, u16, Seq<u8>)>, m: (TlvTag, u16, Seq<u8>))
    ensures
        without_message_payload(ms.push(m)) == (if m.0 != TlvTag::MessagePayload {
            without_message_payload(ms).push(m)
        } else {
            without_message_payload(ms)
        }),
{
    reveal(Seq::filter);
    assert(ms.push(m).drop_last() =~= ms);
    assert(ms.push(m).last() == m);
}

/// Well-formed `submit_sm` field values: every field within its wire
/// bounds, and `sm_length` equal to the length of `short_message`.
pub open spec fn submit_sm_mirror_wf(m: SubmitSmMirror) -> bool {
    &&& c_octet_wf(m.service_type, 1, 6)
    &&& m.source_addr_ton.wf()
    &&& m.source_addr_npi.wf()
    &&& c_octet_wf(m.source_addr, 1, 21)
    &&& m.dest_addr_ton.wf()
    &&& m.dest_addr_npi.wf()
    &&& c_octet_wf(m.destination_addr, 1, 21)
    &&& empty_or_full_wf(m.schedule_delivery_time, 17)
    &&& empty_or_full_wf(m.validity_period, 17)
    &&& octet_wf(m.short_message, 0, 255)
    &&& m.sm_length == m.short_message.len()
    &&& tlvs_mirror_wf(m.tlvs)
}

/// The on-wire form of a `submit_sm` body: the fields in declaration order,
/// the optional TLVs last.
pub open spec fn submit_sm_enc(m: SubmitSmMirror) -> Seq<u8> {
    m.service_type + seq![m.source_addr_ton.spec_to_u8()] + seq![m.source_addr_npi.spec_to_u8()]
        + m.source_addr + seq![m.dest_addr_ton.spec_to_u8()] + seq![m.dest_addr_npi.spec_to_u8()]
        + m.destination_addr + seq![m.esm_class] + seq![m.protocol_id] + seq![m.priority_flag]
        + m.schedule_delivery_time + m.validity_period + seq![m.registered_delivery] + seq![
        m.replace_if_present_flag,
    ] + seq![m.data_coding] + seq![m.sm_default_msg_id] + seq![m.sm_length] + m.short_message
        + tlvs_enc(m.tlvs)
}

/// What decoding a `submit_sm` body from `s` yields: the two addresses.
pub open spec fn spec_decode_submit_sm(s: Seq<u8>) -> Result<(SubmitSmMirror, usize), DecodeError> {
    match spec_decode_c_octet(s, 1, 6) {
        Err(e) => Err(DecodeError::spec_c_octet(e)),
        Ok((service_type, n1)) => {
            let s1 = sdrop(s, n1 as int);
            match spec_decode_u8(s1) {
                Err(e) => Err(DecodeError::spec_integer(e)),
                Ok((ston_b, _)) => {
                    let s2 = sdrop(s1, 1);
                    match spec_decode_u8(s2) {
                        Err(e) => Err(DecodeError::spec_integer(e)),
                        Ok((snpi_b, _)) => {
                            let s3 = sdrop(s2, 1);
                            match spec_decode_c_octet(s3, 1, 21) {
                                Err(e) => Err(DecodeError::spec_c_octet(e)),
                                Ok((source_addr, n4)) => {
                                    let s4 = sdrop(s3, n4 as int);
                                    spec_decode_submit_sm_dest(
                                        s4,
                                        service_type,
                                        ston_b,
                                        snpi_b,
                                        source_addr,
                                        n1 + 2 + n4,
                                    )
                                },
                            }
                        },
                    }
                },
            }
        },
    }
}

/// The destination stage of `spec_decode_submit_sm`: the destination
/// address fields. `used` counts the bytes the head consumed.
pub open spec fn spec_decode_submit_sm_dest(
    s4: Seq<u8>,
    service_type: Seq<u8>,
    ston_b: u8,
    snpi_b: u8,
    source_addr: Seq<u8>,
    used: int,
) -> Result<(SubmitSmMirror, usize), DecodeError> {
    match spec_decode_u8(s4) {
        Err(e) => Err(DecodeError::spec_integer(e)),
        Ok((dton_b, _)) => {
            let s5 = sdrop(s4, 1);
            match spec_decode_u8(s5) {
                Err(e) => Err(DecodeError::spec_integer(e)),
                Ok((dnpi_b, _)) => {
                    let s6 = sdrop(s5, 1);
                    match spec_decode_c_octet(s6, 1, 21) {
                        Err(e) => Err(DecodeError::spec_c_octet(e)),
                        Ok((destination_addr, n7)) => {
                            let s7 = sdrop(s6, n7 as int);
                            spec_decode_submit_sm_mid(
                                s7,
                                SubmitSmHead {
                                    service_type,
                                    ston_b,
                                    snpi_b,
                                    source_addr,
                                    dton_b,
                                    dnpi_b,
                                    destination_addr,
                                },
                                used + 2 + n7,
                            )
                        },
                    }
                },
            }
        },
    }
}

/// The address fields already read when the middle of a `submit_sm` body is/// The address fields already read when the middle of a `submit_sm` body is
/// decoded.
pub struct SubmitSmHead {
    pub service_type: Seq<u8>,
    pub ston_b: u8,
    pub snpi_b: u8,
    pub source_addr: Seq<u8>,
    pub dton_b: u8,
    pub dnpi_b: u8,
    pub destination_addr: Seq<u8>,
}

/// The middle of `spec_decode_submit_sm`: the message attributes and the
/// two time strings. `used` counts the bytes the head consumed.
pub open spec fn spec_decode_submit_sm_mid(s7: Seq<u8>, h: SubmitSmHead, used: int) -> Result<
    (SubmitSmMirror, usize),
    DecodeError,
> {
    match spec_decode_u8(s7) {
        Err(e) => Err(DecodeError::spec_integer(e)),
        Ok((esm_class, _)) => {
            let s8 = sdrop(s7, 1);
            match spec_decode_u8(s8) {
                Err(e) => Err(DecodeError::spec_integer(e)),
                Ok((protocol_id, _)) => {
                    let s9 = sdrop(s8, 1);
                    match spec_decode_u8(s9) {
                        Err(e) => Err(DecodeError::spec_integer(e)),
                        Ok((priority_flag, _)) => {
                            let s10 = sdrop(s9, 1);
                            match spec_decode_empty_or_full(s10, 17) {
                                Err(e) => Err(DecodeError::spec_c_octet(e)),
                                Ok((sched, n11)) => {
                                    let s11 = sdrop(s10, n11 as int);
                                    match spec_decode_empty_or_full(s11, 17) {
                                        Err(e) => Err(DecodeError::spec_c_octet(e)),
                                        Ok((validity, n12)) => {
                                            let s12 = sdrop(s11, n12 as int);
                                            spec_decode_submit_sm_tail(
                                                s12,
                                                h,
                                                esm_class,
                                                protocol_id,
                                                priority_flag,
                                                sched,
                                                validity,
                                                used + 3 + n11 + n12,
                                            )
                                        },
                                    }
                                },
                            }
                        },
                    }
                },
            }
        },
    }
}

/// The tail of `spec_decode_submit_sm`: the delivery flags, the message
/// text, and the trailing TLVs, which consume everything that remains.
pub open spec fn spec_decode_submit_sm_tail(
    s12: Seq<u8>,
    h: SubmitSmHead,
    esm_class: u8,
    protocol_id: u8,
    priority_flag: u8,
    sched: Seq<u8>,
    validity: Seq<u8>,
    used: int,
) -> Result<(SubmitSmMirror, usize), DecodeError> {
    match spec_decode_u8(s12) {
        Err(e) => Err(DecodeError::spec_integer(e)),
        Ok((rd, _)) => {
            let s13 = sdrop(s12, 1);
            match spec_decode_u8(s13) {
                Err(e) => Err(DecodeError::spec_integer(e)),
                Ok((rip, _)) => {
                    let s14 = sdrop(s13, 1);
                    match spec_decode_u8(s14) {
                        Err(e) => Err(DecodeError::spec_integer(e)),
                        Ok((dc, _)) => {
                            let s15 = sdrop(s14, 1);
                            match spec_decode_u8(s15) {
                                Err(e) => Err(DecodeError::spec_integer(e)),
                                Ok((smdid, _)) => {
                                    let s16 = sdrop(s15, 1);
                                    match spec_decode_u8(s16) {
                                        Err(e) => Err(DecodeError::spec_integer(e)),
                                        Ok((sm_len, _)) => {
                                            let s17 = sdrop(s16, 1);
                                            match spec_decode_octet(s17, sm_len as int, 0, 255) {
                                                Err(e) => Err(DecodeError::spec_octet(e)),
                                                Ok((short_message, n18)) => {
                                                    let s18 = sdrop(s17, n18 as int);
                                                    match spec_decode_tlvs(s18) {
                                                        Err(e) => Err(e),
                                                        Ok(tlvs) => Ok(
                                                            (
                                                                SubmitSmMirror {
                                                                    service_type: h.service_type,
                                                                    source_addr_ton:
                                                                        Ton::spec_from_u8(h.ston_b),
                                                                    source_addr_npi:
                                                                        Npi::spec_from_u8(h.snpi_b),
                                                                    source_addr: h.source_addr,
                                                                    dest_addr_ton:
                                                                        Ton::spec_from_u8(h.dton_b),
                                                                    dest_addr_npi:
                                                                        Npi::spec_from_u8(h.dnpi_b),
                                                                    destination_addr:
                                                                        h.destination_addr,
                                                                    esm_class,
                                                                    protocol_id,
                                                                    priority_flag,
                                                                    schedule_delivery_time: sched,
                                                                    validity_period: validity,
                                                                    registered_delivery: rd,
                                                                    replace_if_present_flag: rip,
                                                                    data_coding: dc,
                                                                    sm_default_msg_id: smdid,
                                                                    sm_length: sm_len,
                                                                    short_message,
                                                                    tlvs,
                                                                },
                                                                (used + 5 + n18 + s18.len()) as usize,
                                                            ),
                                                        ),
                                                    }
                                                },
                                            }
                                        },
                                    }
                                },
                            }
                        },
                    }
                },
            }
        },
    }
}

/// Whether one of the TLVs is a `message_payload`.
fn tlvs_have_payload(tlvs: &Vec<Tlv>) -> (r: bool)
    ensures
        r == has_message_payload(tlvs@.map_values(|t: Tlv| t.mirror())),
{
    let ghost ms = tlvs@.map_values(|t: Tlv| t.mirror());
    let mut i: usize = 0;
    loop
        invariant
            i <= tlvs@.len(),
            ms == tlvs@.map_values(|t: Tlv| t.mirror()),
            forall|j: int| 0 <= j < i ==> (#[trigger] ms[j]).0 != TlvTag::MessagePayload,
        decreases tlvs@.len() - i,
    {
        if i == tlvs.len() {
            return false;
        }
        let is_payload = match tlvs[i].tag() {
            TlvTag::MessagePayload => true,
            TlvTag::Other(_) => false,
        };
        proof {
            assert(ms[i as int] == tlvs@[i as int].mirror());
        }
        if is_payload {
            proof {
                assert(ms[i as int].0 == TlvTag::MessagePayload);
            }
            return true;
        }
        i += 1;
    }
}

/// This command is issued by the ESME to submit a short message to the MC
/// for onward transmission.
#[derive(Debug, Clone, PartialEq, Eq, Hash)]
pub struct SubmitSm {
    /// Which messaging service the message was submitted under; NULL for
    /// the default.
    pub service_type: COctetString<1, 6>,
    /// Type of Number of the message originator.
    pub source_addr_ton: Ton,
    /// Numbering Plan Indicator of the source address.
    pub source_addr_npi: Npi,
    /// Address of the SME which originated this message.
    pub source_addr: COctetString<1, 21>,
    /// Type of Number of the destination.
    pub dest_addr_ton: Ton,
    /// Numbering Plan Indicator of the destination address.
    pub dest_addr_npi: Npi,
    /// Destination address of this short message.
    pub destination_addr: COctetString<1, 21>,
    /// Messaging mode, message type and user-data-header indicator bits.
    pub esm_class: u8,
    /// Network-specific protocol identifier.
    pub protocol_id: u8,
    /// Priority level of the message.
    pub priority_flag: u8,
    /// When to deliver; NULL for immediate delivery.
    pub schedule_delivery_time: EmptyOrFullCOctetString<17>,
    /// When the message expires; NULL for the MC default.
    pub validity_period: EmptyOrFullCOctetString<17>,
    /// Which delivery receipts and acknowledgements are requested.
    pub registered_delivery: RegisteredDelivery,
    /// Whether to replace a pending message with the same ids.
    pub replace_if_present_flag: u8,
    /// Character encoding of the message text.
    pub data_coding: u8,
    /// Index of a canned message on the MC; NULL for none.
    pub sm_default_msg_id: u8,
    sm_length: u8,
    short_message: OctetString<0, 255>,
    tlvs: Vec<Tlv>,
}

impl SubmitSm {
    /// Spec-level accessors for the private fields.
    pub closed spec fn spec_sm_length(self) -> u8 {
        self.sm_length
    }

    pub closed spec fn spec_short_message(self) -> OctetString<0, 255> {
        self.short_message
    }

    pub closed spec fn spec_tlvs(self) -> Seq<Tlv> {
        self.tlvs@
    }

    /// The type's invariant: every field within its wire bounds, and
    /// `sm_length` equal to the length of `short_message`.
    pub closed spec fn wf(self) -> bool {
        &&& self.service_type.wf()
        &&& self.source_addr_ton.wf()
        &&& self.source_addr_npi.wf()
        &&& self.source_addr.wf()
        &&& self.dest_addr_ton.wf()
        &&& self.dest_addr_npi.wf()
        &&& self.destination_addr.wf()
        &&& self.schedule_delivery_time.wf()
        &&& self.validity_period.wf()
        &&& self.spec_short_message().wf()
        &&& self.spec_sm_length() == self.spec_short_message()@.len()
        &&& forall|i: int| 0 <= i < self.tlvs@.len() ==> (#[trigger] self.tlvs@[i]).wf()
    }

    /// The field values as they stand on the wire.
    pub closed spec fn mirror(self) -> SubmitSmMirror {
        SubmitSmMirror {
            service_type: self.service_type@,
            source_addr_ton: self.source_addr_ton,
            source_addr_npi: self.source_addr_npi,
            source_addr: self.source_addr@,
            dest_addr_ton: self.dest_addr_ton,
            dest_addr_npi: self.dest_addr_npi,
            destination_addr: self.destination_addr@,
            esm_class: self.esm_class,
            protocol_id: self.protocol_id,
            priority_flag: self.priority_flag,
            schedule_delivery_time: self.schedule_delivery_time@,
            validity_period: self.validity_period@,
            registered_delivery: self.registered_delivery.value,
            replace_if_present_flag: self.replace_if_present_flag,
            data_coding: self.data_coding,
            sm_default_msg_id: self.sm_default_msg_id,
            sm_length: self.spec_sm_length(),
            short_message: self.spec_short_message()@,
            tlvs: self.tlvs@.map_values(|t: Tlv| t.mirror()),
        }
    }

    /// A well-formed value has well-formed wire fields.
    pub proof fn lemma_wf_mirror(self)
        requires
            self.wf(),
        ensures
            submit_sm_mirror_wf(self.mirror()),
    {
        assert forall|i: int| 0 <= i < self.mirror().tlvs.len() implies (#[trigger] self.mirror()
            .tlvs[i]).0.wf() && self.mirror().tlvs[i].1 == self.mirror().tlvs[i].2.len() by {
            assert(self.mirror().tlvs[i] == self.tlvs@[i].mirror());
            assert(self.tlvs@[i].wf());
        }
    }

    pub fn new(
        service_type: COctetString<1, 6>,
        source_addr_ton: Ton,
        source_addr_npi: Npi,
        source_addr: COctetString<1, 21>,
        dest_addr_ton: Ton,
        dest_addr_npi: Npi,
        destination_addr: COctetString<1, 21>,
        esm_class: u8,
        protocol_id: u8,
        priority_flag: u8,
        schedule_delivery_time: EmptyOrFullCOctetString<17>,
        validity_period: EmptyOrFullCOctetString<17>,
        registered_delivery: RegisteredDelivery,
        replace_if_present_flag: u8,
        data_coding: u8,
        sm_default_msg_id: u8,
        short_message: OctetString<0, 255>,
        tlvs: Vec<Tlv>,
    ) -> (r: Self)
        requires
            service_type.wf(),
            source_addr_ton.wf(),
            source_addr_npi.wf(),
            source_addr.wf(),
            dest_addr_ton.wf(),
            dest_addr_npi.wf(),
            destination_addr.wf(),
            schedule_delivery_time.wf(),
            validity_period.wf(),
            short_message.wf(),
            forall|i: int| 0 <= i < tlvs@.len() ==> (#[trigger] tlvs@[i]).wf(),
        ensures
            r.wf(),
            r.spec_short_message() == short_message,
            r.spec_tlvs() == tlvs@,
            r.mirror() == (SubmitSmMirror {
                service_type: service_type@,
                source_addr_ton,
                source_addr_npi,
                source_addr: source_addr@,
                dest_addr_ton,
                dest_addr_npi,
                destination_addr: destination_addr@,
                esm_class,
                protocol_id,
                priority_flag,
                schedule_delivery_time: schedule_delivery_time@,
                validity_period: validity_period@,
                registered_delivery: registered_delivery.value,
                replace_if_present_flag,
                data_coding,
                sm_default_msg_id,
                sm_length: short_message@.len() as u8,
                short_message: short_message@,
                tlvs: tlvs@.map_values(|t: Tlv| t.mirror()),
            }),
    {
        let sm_length = short_message.length() as u8;
        Self {
            service_type,
            source_addr_ton,
            source_addr_npi,
            source_addr,
            dest_addr_ton,
            dest_addr_npi,
            destination_addr,
            esm_class,
            protocol_id,
            priority_flag,
            schedule_delivery_time,
            validity_period,
            registered_delivery,
            replace_if_present_flag,
            data_coding,
            sm_default_msg_id,
            sm_length,
            short_message,
            tlvs,
        }
    }

    /// Creates a new [`SubmitSm`], refusing the one combination the
    /// protocol forbids: a non-empty `short_message` next to a
    /// `message_payload` TLV.
    pub fn try_new(
        service_type: COctetString<1, 6>,
        source_addr_ton: Ton,
        source_addr_npi: Npi,
        source_addr: COctetString<1, 21>,
        dest_addr_ton: Ton,
        dest_addr_npi: Npi,
        destination_addr: COctetString<1, 21>,
        esm_class: u8,
        protocol_id: u8,
        priority_flag: u8,
        schedule_delivery_time: EmptyOrFullCOctetString<17>,
        validity_period: EmptyOrFullCOctetString<17>,
        registered_delivery: RegisteredDelivery,
        replace_if_present_flag: u8,
        data_coding: u8,
        sm_default_msg_id: u8,
        short_message: OctetString<0, 255>,
        tlvs: Vec<Tlv>,
    ) -> (r: Option<Self>)
        requires
            service_type.wf(),
            source_addr_ton.wf(),
            source_addr_npi.wf(),
            source_addr.wf(),
            dest_addr_ton.wf(),
            dest_addr_npi.wf(),
            destination_addr.wf(),
            schedule_delivery_time.wf(),
            validity_period.wf(),
            short_message.wf(),
            forall|i: int| 0 <= i < tlvs@.len() ==> (#[trigger] tlvs@[i]).wf(),
        ensures
            r is None <==> (short_message@.len() > 0 && has_message_payload(
                tlvs@.map_values(|t: Tlv| t.mirror()),
            )),
            r matches Some(v) ==> {
                &&& v.wf()
                &&& v.spec_short_message() == short_message
                &&& v.spec_tlvs() == tlvs@
                &&& v.mirror().short_message == short_message@
                &&& v.mirror().tlvs == tlvs@.map_values(|t: Tlv| t.mirror())
            },
    {
        let v = Self::new(
            service_type,
            source_addr_ton,
            source_addr_npi,
            source_addr,
            dest_addr_ton,
            dest_addr_npi,
            destination_addr,
            esm_class,
            protocol_id,
            priority_flag,
            schedule_delivery_time,
            validity_period,
            registered_delivery,
            replace_if_present_flag,
            data_coding,
            sm_default_msg_id,
            short_message,
            tlvs,
        );
        if v.short_message_exists() && v.message_payload_exists() {
            return None;
        }
        Some(v)
    }

    /// Length in octets of the `short_message` field.
    pub fn sm_length(&self) -> (r: u8)
        ensures
            r == self.mirror().sm_length,
            self.wf() ==> r == self.spec_short_message()@.len(),
    {
        self.sm_length
    }

    pub fn short_message(&self) -> (r: &OctetString<0, 255>)
        ensures
            r == self.spec_short_message(),
            r@ == self.mirror().short_message,
            self.wf() ==> r@.len() <= 255,
    {
        &self.short_message
    }

    /// The trailing optional parameters.
    pub fn tlvs(&self) -> (r: &Vec<Tlv>)
        ensures
            r@ == self.spec_tlvs(),
            r@.map_values(|t: Tlv| t.mirror()) == self.mirror().tlvs,
    {
        proof {
            assert(self.tlvs@.map_values(|t: Tlv| t.mirror()) =~= self.mirror().tlvs);
        }
        &self.tlvs
    }

    /// Whether a `message_payload` TLV is among the optional parameters.
    pub fn message_payload_exists(&self) -> (r: bool)
        ensures
            r == has_message_payload(self.mirror().tlvs),
    {
        tlvs_have_payload(&self.tlvs)
    }

    /// Whether the `short_message` carries any bytes.
    pub fn short_message_exists(&self) -> (r: bool)
        ensures
            r == (self.mirror().short_message.len() > 0),
            r == (self.spec_short_message()@.len() > 0),
    {
        !self.short_message.is_empty()
    }

    /// Sets the `short_message` and `sm_length` together and drops any
    /// `message_payload` element from the optional parameters: the two
    /// carriers of the message text never stay non-empty side by side.
    /// Every other optional parameter stays, in order.
    #[verifier::loop_isolation(false)]
    #[verifier::rlimit(50)]
    pub fn set_short_message(&mut self, short_message: OctetString<0, 255>)
        requires
            short_message.wf(),
        ensures
            final(self).spec_short_message() == short_message,
            !has_message_payload(final(self).mirror().tlvs),
            final(self).mirror() == (SubmitSmMirror {
                sm_length: short_message@.len() as u8,
                short_message: short_message@,
                tlvs: without_message_payload(old(self).mirror().tlvs),
                ..old(self).mirror()
            }),
            old(self).wf() ==> final(self).wf(),
    {
        let ghost tmap = |t: Tlv| t.mirror();
        let ghost old_ms = self.tlvs@.map_values(tmap);
        let ghost all_old_wf = forall|k: int|
            0 <= k < self.tlvs@.len() ==> (#[trigger] self.tlvs@[k]).wf();
        let mut drained: Vec<Tlv> = Vec::new();
        core::mem::swap(&mut drained, &mut self.tlvs);
        let mut kept: Vec<Tlv> = Vec::new();
        proof {
            assert(kept@.map_values(tmap) =~= Seq::<(TlvTag, u16, Seq<u8>)>::empty());
            assert(old_ms.take(0) =~= Seq::<(TlvTag, u16, Seq<u8>)>::empty());
            assert(old_ms.skip(0) =~= old_ms);
            reveal(Seq::filter);
            assert(without_message_payload(old_ms.take(0)) =~= Seq::<
                (TlvTag, u16, Seq<u8>),
            >::empty());
        }
        let ghost mut j: int = 0;
        while drained.len() > 0
            invariant
                0 <= j <= old_ms.len(),
                drained@.map_values(tmap) == old_ms.skip(j),
                kept@.map_values(tmap) == without_message_payload(old_ms.take(j)),
                all_old_wf ==> forall|k: int|
                    0 <= k < drained@.len() ==> (#[trigger] drained@[k]).wf(),
                all_old_wf ==> forall|k: int|
                    0 <= k < kept@.len() ==> (#[trigger] kept@[k]).wf(),
            decreases drained@.len(),
        {
            let ghost pre_drained = drained@;
            let t = drained.remove(0);
            proof {
                assert(t == pre_drained[0]);
                assert(drained@ =~= pre_drained.skip(1));
                assert(drained@.map_values(tmap) =~= old_ms.skip(j + 1)) by {
                    assert(pre_drained.map_values(tmap).skip(1) =~= drained@.map_values(tmap));
                    assert(old_ms.skip(j).skip(1) =~= old_ms.skip(j + 1));
                }
                assert(tmap(t) == old_ms[j]) by {
                    assert(pre_drained.map_values(tmap)[0] == tmap(pre_drained[0]));
                    assert(old_ms.skip(j)[0] == old_ms[j]);
                }
                assert(old_ms.take(j + 1) =~= old_ms.take(j).push(old_ms[j]));
                lemma_without_payload_step(old_ms.take(j), old_ms[j]);
            }
            let keep = match t.tag() {
                TlvTag::MessagePayload => false,
                TlvTag::Other(_) => true,
            };
            if keep {
                let ghost prev = kept@;
                kept.push(t);
                proof {
                    assert(kept@.map_values(tmap) =~= prev.map_values(tmap).push(tmap(t)));
                }
            }
            proof {
                j = j + 1;
            }
        }
        proof {
            assert(old_ms.skip(j).len() == 0);
            assert(j == old_ms.len());
            assert(old_ms.take(j) =~= old_ms);
            lemma_without_payload_clean(old_ms);
        }
        self.short_message = short_message;
        self.sm_length = self.short_message.length() as u8;
        self.tlvs = kept;
    }

    /// Attempts to set the `short_message` and `sm_length`; refused when a
    /// `message_payload` TLV is present.
    pub fn try_set_short_message(&mut self, short_message: OctetString<0, 255>) -> (r: bool)
        requires
            short_message.wf(),
        ensures
            r == !has_message_payload(old(self).mirror().tlvs),
            r ==> final(self).mirror() == (SubmitSmMirror {
                sm_length: short_message@.len() as u8,
                short_message: short_message@,
                ..old(self).mirror()
            }) && (old(self).wf() ==> final(self).wf()),
            !r ==> *final(self) == *old(self),
    {
        if !self.message_payload_exists() {
            proof {
                lemma_without_payload_identity(self.mirror().tlvs);
            }
            self.set_short_message(short_message);
            return true;
        }
        false
    }

    /// Clears the `short_message` and sets `sm_length` to zero.
    pub fn clear_short_message(&mut self)
        ensures
            final(self).spec_short_message()@ == Seq::<u8>::empty(),
            final(self).spec_sm_length() == 0,
            final(self).mirror() == (SubmitSmMirror {
                sm_length: 0,
                short_message: Seq::<u8>::empty(),
                ..old(self).mirror()
            }),
            old(self).wf() ==> final(self).wf(),
    {
        self.short_message = OctetString::empty();
        self.sm_length = 0;
    }

    /// Attempts to replace the optional parameters; refused when one of the
    /// new TLVs is a `message_payload` while the `short_message` is set, as
    /// the payload supersedes it.
    pub fn try_set_tlvs(&mut self, tlvs: Vec<Tlv>) -> (r: bool)
        requires
            forall|i: int| 0 <= i < tlvs@.len() ==> (#[trigger] tlvs@[i]).wf(),
        ensures
            r == !(has_message_payload(tlvs@.map_values(|t: Tlv| t.mirror())) && old(
                self,
            ).mirror().short_message.len() > 0),
            r ==> final(self).mirror() == (SubmitSmMirror {
                tlvs: tlvs@.map_values(|t: Tlv| t.mirror()),
                ..old(self).mirror()
            }) && (old(self).wf() ==> final(self).wf()),
            !r ==> *final(self) == *old(self),
    {
        let any_payload = tlvs_have_payload(&tlvs);
        if any_payload && self.short_message_exists() {
            return false;
        }
        self.tlvs = tlvs;
        true
    }

    /// Attempts to add one optional parameter; a `message_payload` is
    /// refused while the `short_message` is set, as the payload supersedes
    /// it.
    pub fn try_push_tlv(&mut self, tlv: Tlv) -> (r: bool)
        requires
            tlv.wf(),
        ensures
            r == !(tlv.mirror().0 == TlvTag::MessagePayload && old(
                self,
            ).mirror().short_message.len() > 0),
            r ==> final(self).mirror() == (SubmitSmMirror {
                tlvs: old(self).mirror().tlvs.push(tlv.mirror()),
                ..old(self).mirror()
            }) && (old(self).wf() ==> final(self).wf()),
            !r ==> *final(self) == *old(self),
    {
        let is_payload = match tlv.tag() {
            TlvTag::MessagePayload => true,
            TlvTag::Other(_) => false,
        };
        if is_payload && self.short_message_exists() {
            return false;
        }
        let ghost prev = self.tlvs@;
        self.tlvs.push(tlv);
        proof {
            assert(self.tlvs@.map_values(|t: Tlv| t.mirror()) =~= prev.map_values(
                |t: Tlv| t.mirror(),
            ).push(tlv.mirror()));
        }
        true
    }

    /// Total size of the body in bytes.
    pub fn length(&self) -> (r: usize)
        requires
            self.wf(),
            submit_sm_enc(self.mirror()).len() <= usize::MAX,
        ensures
            r == submit_sm_enc(self.mirror()).len(),
    {
        let tlvs_len = tlvs_total_length(&self.tlvs);
        self.service_type.length() + 4 + self.source_addr.length() + self.destination_addr.length()
            + 3 + self.schedule_delivery_time.length() + self.validity_period.length() + 5
            + self.short_message.length() + tlvs_len
    }

    /// Appends the on-wire form of the body.
    pub fn encode_to(&self, dst: &mut Vec<u8>)
        ensures
            final(dst)@ == old(dst)@ + submit_sm_enc(self.mirror()),
    {
        self.service_type.encode_to(dst);
        encode_u8_to(self.source_addr_ton.to_u8(), dst);
        encode_u8_to(self.source_addr_npi.to_u8(), dst);
        self.source_addr.encode_to(dst);
        encode_u8_to(self.dest_addr_ton.to_u8(), dst);
        encode_u8_to(self.dest_addr_npi.to_u8(), dst);
        self.destination_addr.encode_to(dst);
        encode_u8_to(self.esm_class, dst);
        encode_u8_to(self.protocol_id, dst);
        encode_u8_to(self.priority_flag, dst);
        self.schedule_delivery_time.encode_to(dst);
        self.validity_period.encode_to(dst);
        encode_u8_to(self.registered_delivery.value, dst);
        encode_u8_to(self.replace_if_present_flag, dst);
        encode_u8_to(self.data_coding, dst);
        encode_u8_to(self.sm_default_msg_id, dst);
        encode_u8_to(self.sm_length, dst);
        self.short_message.encode_to(dst);
        encode_tlvs_to(&self.tlvs, dst);
        assert(final(dst)@ =~= old(dst)@ + submit_sm_enc(self.mirror()));
    }

    /// Reads a whole `submit_sm` body: the trailing TLVs run to the end of
    /// `src`, so on success the whole buffer is consumed.
    #[verifier::rlimit(100)]
    #[verifier::spinoff_prover]
    pub fn decode(src: &[u8]) -> (r: Result<(Self, usize), DecodeError>)
        ensures
            match r {
                Ok((v, n)) => {
                    &&& v.wf()
                    &&& n <= src@.len()
                    &&& spec_decode_submit_sm(src@) == Ok::<(SubmitSmMirror, usize), DecodeError>(
                        (v.mirror(), n),
                    )
                },
                Err(e) => spec_decode_submit_sm(src@) == Err::<(SubmitSmMirror, usize), DecodeError>(
                    e,
                ),
            },
    {
        let src_len: usize = src.len();
        let mut off: usize = 0;
        let (service_type, n1) = match COctetString::<1, 6>::decode(src) {
            Ok(p) => p,
            Err(e) => {
                return Err(DecodeError::c_octet_string_decode_error(e));
            },
        };
        off = n1;
        let rem = slice_skip(src, off);
        let (ston_b, _) = match decode_u8(rem) {
            Ok(p) => p,
            Err(e) => {
                return Err(DecodeError::integer_decode_error(e));
            },
        };
        proof {
            assert(sdrop(src@, off as int).skip(1) =~= sdrop(src@, off + 1));
        }
        off = off + 1;
        let rem = slice_skip(src, off);
        let (snpi_b, _) = match decode_u8(rem) {
            Ok(p) => p,
            Err(e) => {
                return Err(DecodeError::integer_decode_error(e));
            },
        };
        proof {
            assert(sdrop(src@, off as int).skip(1) =~= sdrop(src@, off + 1));
        }
        off = off + 1;
        let rem = slice_skip(src, off);
        let (source_addr, n4) = match COctetString::<1, 21>::decode(rem) {
            Ok(p) => p,
            Err(e) => {
                return Err(DecodeError::c_octet_string_decode_error(e));
            },
        };
        proof {
            assert(sdrop(src@, off as int).skip(n4 as int) =~= sdrop(src@, off + n4));
        }
        off = off + n4;
        let rem = slice_skip(src, off);
        let (dton_b, _) = match decode_u8(rem) {
            Ok(p) => p,
            Err(e) => {
                return Err(DecodeError::integer_decode_error(e));
            },
        };
        proof {
            assert(sdrop(src@, off as int).skip(1) =~= sdrop(src@, off + 1));
        }
        off = off + 1;
        let rem = slice_skip(src, off);
        let (dnpi_b, _) = match decode_u8(rem) {
            Ok(p) => p,
            Err(e) => {
                return Err(DecodeError::integer_decode_error(e));
            },
        };
        proof {
            assert(sdrop(src@, off as int).skip(1) =~= sdrop(src@, off + 1));
        }
        off = off + 1;
        let rem = slice_skip(src, off);
        let (destination_addr, n7) = match COctetString::<1, 21>::decode(rem) {
            Ok(p) => p,
            Err(e) => {
                return Err(DecodeError::c_octet_string_decode_error(e));
            },
        };
        proof {
            assert(sdrop(src@, off as int).skip(n7 as int) =~= sdrop(src@, off + n7));
        }
        off = off + n7;
        let rem = slice_skip(src, off);
        match decode_from_mid(
            rem,
            Ghost(off as int),
            service_type,
            ston_b,
            snpi_b,
            source_addr,
            dton_b,
            dnpi_b,
            destination_addr,
        ) {
            Ok((v, n)) => Ok((v, off + n)),
            Err(e) => Err(e),
        }
    }
}

/// The head that the staged decoders below carry forward, at the spec
/// level.
pub open spec fn submit_sm_head_of(
    service_type: Seq<u8>,
    ston_b: u8,
    snpi_b: u8,
    source_addr: Seq<u8>,
    dton_b: u8,
    dnpi_b: u8,
    destination_addr: Seq<u8>,
) -> SubmitSmHead {
    SubmitSmHead { service_type, ston_b, snpi_b, source_addr, dton_b, dnpi_b, destination_addr }
}

/// Reads a `submit_sm` body from `esm_class` on; `used` counts the bytes
/// the caller already consumed.
#[verifier::rlimit(100)]
#[verifier::spinoff_prover]
fn decode_from_mid(
    src: &[u8],
    used: Ghost<int>,
    service_type: COctetString<1, 6>,
    ston_b: u8,
    snpi_b: u8,
    source_addr: COctetString<1, 21>,
    dton_b: u8,
    dnpi_b: u8,
    destination_addr: COctetString<1, 21>,
) -> (r: Result<(SubmitSm, usize), DecodeError>)
    requires
        0 <= used@,
        used@ + src@.len() <= usize::MAX,
        service_type.wf(),
        source_addr.wf(),
        destination_addr.wf(),
    ensures
        ({
            let h = submit_sm_head_of(
                service_type@,
                ston_b,
                snpi_b,
                source_addr@,
                dton_b,
                dnpi_b,
                destination_addr@,
            );
            match r {
                Ok((v, n)) => {
                    &&& v.wf()
                    &&& n <= src@.len()
                    &&& spec_decode_submit_sm_mid(src@, h, used@) == Ok::<
                        (SubmitSmMirror, usize),
                        DecodeError,
                    >((v.mirror(), (used@ + n) as usize))
                },
                Err(e) => spec_decode_submit_sm_mid(src@, h, used@) == Err::<
                    (SubmitSmMirror, usize),
                    DecodeError,
                >(e),
            }
        }),
{
    let src_len: usize = src.len();
    let mut off: usize = 0;
    let (esm_class, _) = match decode_u8(src) {
        Ok(p) => p,
        Err(e) => {
            return Err(DecodeError::integer_decode_error(e));
        },
    };
    off = 1;
    let rem = slice_skip(src, off);
    let (protocol_id, _) = match decode_u8(rem) {
        Ok(p) => p,
        Err(e) => {
            return Err(DecodeError::integer_decode_error(e));
        },
    };
    proof {
        assert(sdrop(src@, off as int).skip(1) =~= sdrop(src@, off + 1));
    }
    off = off + 1;
    let rem = slice_skip(src, off);
    let (priority_flag, _) = match decode_u8(rem) {
        Ok(p) => p,
        Err(e) => {
            return Err(DecodeError::integer_decode_error(e));
        },
    };
    proof {
        assert(sdrop(src@, off as int).skip(1) =~= sdrop(src@, off + 1));
    }
    off = off + 1;
    let rem = slice_skip(src, off);
    let (sched, n11) = match EmptyOrFullCOctetString::<17>::decode(rem) {
        Ok(p) => p,
        Err(e) => {
            return Err(DecodeError::c_octet_string_decode_error(e));
        },
    };
    proof {
        assert(sdrop(src@, off as int).skip(n11 as int) =~= sdrop(src@, off + n11));
    }
    off = off + n11;
    let rem = slice_skip(src, off);
    let (validity, n12) = match EmptyOrFullCOctetString::<17>::decode(rem) {
        Ok(p) => p,
        Err(e) => {
            return Err(DecodeError::c_octet_string_decode_error(e));
        },
    };
    proof {
        assert(sdrop(src@, off as int).skip(n12 as int) =~= sdrop(src@, off + n12));
    }
    off = off + n12;
    let rem = slice_skip(src, off);
    match decode_from_tail(
        rem,
        Ghost(used@ + off as int),
        service_type,
        ston_b,
        snpi_b,
        source_addr,
        dton_b,
        dnpi_b,
        destination_addr,
        esm_class,
        protocol_id,
        priority_flag,
        sched,
        validity,
    ) {
        Ok((v, n)) => Ok((v, off + n)),
        Err(e) => Err(e),
    }
}

/// Reads a `submit_sm` body from `registered_delivery` on; `used` counts
/// the bytes the caller already consumed.
#[verifier::rlimit(100)]
#[verifier::spinoff_prover]
fn decode_from_tail(
    src: &[u8],
    used: Ghost<int>,
    service_type: COctetString<1, 6>,
    ston_b: u8,
    snpi_b: u8,
    source_addr: COctetString<1, 21>,
    dton_b: u8,
    dnpi_b: u8,
    destination_addr: COctetString<1, 21>,
    esm_class: u8,
    protocol_id: u8,
    priority_flag: u8,
    sched: EmptyOrFullCOctetString<17>,
    validity: EmptyOrFullCOctetString<17>,
) -> (r: Result<(SubmitSm, usize), DecodeError>)
    requires
        0 <= used@,
        used@ + src@.len() <= usize::MAX,
        service_type.wf(),
        source_addr.wf(),
        destination_addr.wf(),
        sched.wf(),
        validity.wf(),
    ensures
        ({
            let h = submit_sm_head_of(
                service_type@,
                ston_b,
                snpi_b,
                source_addr@,
                dton_b,
                dnpi_b,
                destination_addr@,
            );
            match r {
                Ok((v, n)) => {
                    &&& v.wf()
                    &&& n <= src@.len()
                    &&& spec_decode_submit_sm_tail(
                        src@,
                        h,
                        esm_class,
                        protocol_id,
                        priority_flag,
                        sched@,
                        validity@,
                        used@,
                    ) == Ok::<(SubmitSmMirror, usize), DecodeError>(
                        (v.mirror(), (used@ + n) as usize),
                    )
                },
                Err(e) => spec_decode_submit_sm_tail(
                    src@,
                    h,
                    esm_class,
                    protocol_id,
                    priority_flag,
                    sched@,
                    validity@,
                    used@,
                ) == Err::<(SubmitSmMirror, usize), DecodeError>(e),
            }
        }),
{
    let src_len: usize = src.len();
    let mut off: usize = 0;
    let (rd, _) = match decode_u8(src) {
        Ok(p) => p,
        Err(e) => {
            return Err(DecodeError::integer_decode_error(e));
        },
    };
    off = 1;
    let rem = slice_skip(src, off);
    let (rip, _) = match decode_u8(rem) {
        Ok(p) => p,
        Err(e) => {
            return Err(DecodeError::integer_decode_error(e));
        },
    };
    proof {
        assert(sdrop(src@, off as int).skip(1) =~= sdrop(src@, off + 1));
    }
    off = off + 1;
    let rem = slice_skip(src, off);
    let (dc, _) = match decode_u8(rem) {
        Ok(p) => p,
        Err(e) => {
            return Err(DecodeError::integer_decode_error(e));
        },
    };
    proof {
        assert(sdrop(src@, off as int).skip(1) =~= sdrop(src@, off + 1));
    }
    off = off + 1;
    let rem = slice_skip(src, off);
    let (smdid, _) = match decode_u8(rem) {
        Ok(p) => p,
        Err(e) => {
            return Err(DecodeError::integer_decode_error(e));
        },
    };
    proof {
        assert(sdrop(src@, off as int).skip(1) =~= sdrop(src@, off + 1));
    }
    off = off + 1;
    let rem = slice_skip(src, off);
    let (sm_len, _) = match decode_u8(rem) {
        Ok(p) => p,
        Err(e) => {
            return Err(DecodeError::integer_decode_error(e));
        },
    };
    proof {
        assert(sdrop(src@, off as int).skip(1) =~= sdrop(src@, off + 1));
    }
    off = off + 1;
    let rem = slice_skip(src, off);
    let (short_message, n18) = match OctetString::<0, 255>::decode(rem, sm_len as usize) {
        Ok(p) => p,
        Err(e) => {
            return Err(DecodeError::octet_string_decode_error(e));
        },
    };
    proof {
        assert(sdrop(src@, off as int).skip(n18 as int) =~= sdrop(src@, off + n18));
    }
    off = off + n18;
    let rem = slice_skip(src, off);
    let tail_len = rem.len();
    let tlvs = match decode_tlvs(rem) {
        Ok(v) => v,
        Err(e) => {
            return Err(e);
        },
    };
    off = off + tail_len;
    let v = SubmitSm {
        service_type,
        source_addr_ton: Ton::from_u8(ston_b),
        source_addr_npi: Npi::from_u8(snpi_b),
        source_addr,
        dest_addr_ton: Ton::from_u8(dton_b),
        dest_addr_npi: Npi::from_u8(dnpi_b),
        destination_addr,
        esm_class,
        protocol_id,
        priority_flag,
        schedule_delivery_time: sched,
        validity_period: validity,
        registered_delivery: RegisteredDelivery::new(rd),
        replace_if_present_flag: rip,
        data_coding: dc,
        sm_default_msg_id: smdid,
        sm_length: sm_len,
        short_message,
        tlvs,
    };
    Ok((v, off))
}

/// Round trip of the tail of a `submit_sm` body.
#[verifier::rlimit(100)]
#[verifier::spinoff_prover]
proof fn lemma_submit_sm_tail_round_trip(m: SubmitSmMirror, h: SubmitSmHead, used: int)
    requires
        submit_sm_mirror_wf(m),
        0 <= used,
        used + submit_sm_tail_enc(m).len() <= usize::MAX,
        h == (SubmitSmHead {
            service_type: m.service_type,
            ston_b: m.source_addr_ton.spec_to_u8(),
            snpi_b: m.source_addr_npi.spec_to_u8(),
            source_addr: m.source_addr,
            dton_b: m.dest_addr_ton.spec_to_u8(),
            dnpi_b: m.dest_addr_npi.spec_to_u8(),
            destination_addr: m.destination_addr,
        }),
    ensures
        spec_decode_submit_sm_tail(
            submit_sm_tail_enc(m),
            h,
            m.esm_class,
            m.protocol_id,
            m.priority_flag,
            m.schedule_delivery_time,
            m.validity_period,
            used,
        ) == Ok::<(SubmitSmMirror, usize), DecodeError>(
            (m, (used + submit_sm_tail_enc(m).len()) as usize),
        ),
{
    let t18 = tlvs_enc(m.tlvs);
    let t17 = m.short_message + t18;
    let t16 = seq![m.sm_length] + t17;
    let t15 = seq![m.sm_default_msg_id] + t16;
    let t14 = seq![m.data_coding] + t15;
    let t13 = seq![m.replace_if_present_flag] + t14;
    let s12 = submit_sm_tail_enc(m);
    assert(s12 =~= seq![m.registered_delivery] + t13);

    lemma_u8_round_trip(m.registered_delivery, t13);
    lemma_add_then_skip(seq![m.registered_delivery], t13);
    assert(sdrop(s12, 1) == t13);
    assert(spec_decode_u8(s12) == Ok::<(u8, usize), IntegerDecodeError>((m.registered_delivery, 1)));

    lemma_u8_round_trip(m.replace_if_present_flag, t14);
    lemma_add_then_skip(seq![m.replace_if_present_flag], t14);
    assert(sdrop(t13, 1) == t14);

    lemma_u8_round_trip(m.data_coding, t15);
    lemma_add_then_skip(seq![m.data_coding], t15);
    assert(sdrop(t14, 1) == t15);

    lemma_u8_round_trip(m.sm_default_msg_id, t16);
    lemma_add_then_skip(seq![m.sm_default_msg_id], t16);
    assert(sdrop(t15, 1) == t16);

    lemma_u8_round_trip(m.sm_length, t17);
    lemma_add_then_skip(seq![m.sm_length], t17);
    assert(sdrop(t16, 1) == t17);

    lemma_octet_round_trip(m.short_message, t18, 0, 255);
    lemma_add_then_skip(m.short_message, t18);
    assert(sdrop(t17, m.short_message.len() as int) == t18);
    assert(spec_decode_octet(t17, m.sm_length as int, 0, 255) == Ok::<
        (Seq<u8>, usize),
        OctetStringDecodeError,
    >((m.short_message, m.short_message.len() as usize)));

    lemma_tlvs_round_trip(m.tlvs);
}

/// The on-wire form of the fields `spec_decode_submit_sm_tail` reads.
pub open spec fn submit_sm_tail_enc(m: SubmitSmMirror) -> Seq<u8> {
    seq![m.registered_delivery] + seq![m.replace_if_present_flag] + seq![m.data_coding] + seq![
        m.sm_default_msg_id,
    ] + seq![m.sm_length] + m.short_message + tlvs_enc(m.tlvs)
}

/// The on-wire form of the fields `spec_decode_submit_sm_mid` reads.
pub open spec fn submit_sm_mid_enc(m: SubmitSmMirror) -> Seq<u8> {
    seq![m.esm_class] + seq![m.protocol_id] + seq![m.priority_flag] + m.schedule_delivery_time
        + m.validity_period + submit_sm_tail_enc(m)
}

/// Round trip of the middle of a `submit_sm` body.
#[verifier::rlimit(100)]
#[verifier::spinoff_prover]
proof fn lemma_submit_sm_mid_round_trip(m: SubmitSmMirror, h: SubmitSmHead, used: int)
    requires
        submit_sm_mirror_wf(m),
        0 <= used,
        used + submit_sm_mid_enc(m).len() <= usize::MAX,
        h == (SubmitSmHead {
            service_type: m.service_type,
            ston_b: m.source_addr_ton.spec_to_u8(),
            snpi_b: m.source_addr_npi.spec_to_u8(),
            source_addr: m.source_addr,
            dton_b: m.dest_addr_ton.spec_to_u8(),
            dnpi_b: m.dest_addr_npi.spec_to_u8(),
            destination_addr: m.destination_addr,
        }),
    ensures
        spec_decode_submit_sm_mid(submit_sm_mid_enc(m), h, used) == Ok::<
            (SubmitSmMirror, usize),
            DecodeError,
        >((m, (used + submit_sm_mid_enc(m).len()) as usize)),
{
    let t12 = submit_sm_tail_enc(m);
    let t11 = m.validity_period + t12;
    let t10 = m.schedule_delivery_time + t11;
    let t9 = seq![m.priority_flag] + t10;
    let t8 = seq![m.protocol_id] + t9;
    let s7 = submit_sm_mid_enc(m);
    assert(s7 =~= seq![m.esm_class] + t8);

    lemma_u8_round_trip(m.esm_class, t8);
    lemma_add_then_skip(seq![m.esm_class], t8);
    assert(sdrop(s7, 1) == t8);

    lemma_u8_round_trip(m.protocol_id, t9);
    lemma_add_then_skip(seq![m.protocol_id], t9);
    assert(sdrop(t8, 1) == t9);

    lemma_u8_round_trip(m.priority_flag, t10);
    lemma_add_then_skip(seq![m.priority_flag], t10);
    assert(sdrop(t9, 1) == t10);

    lemma_empty_or_full_round_trip(m.schedule_delivery_time, t11, 17);
    lemma_add_then_skip(m.schedule_delivery_time, t11);
    assert(sdrop(t10, m.schedule_delivery_time.len() as int) == t11);

    lemma_empty_or_full_round_trip(m.validity_period, t12, 17);
    lemma_add_then_skip(m.validity_period, t12);
    assert(sdrop(t11, m.validity_period.len() as int) == t12);

    lemma_submit_sm_tail_round_trip(
        m,
        h,
        used + 3 + m.schedule_delivery_time.len() + m.validity_period.len(),
    );
}

/// The on-wire form of the fields `spec_decode_submit_sm_dest` reads.
pub open spec fn submit_sm_dest_enc(m: SubmitSmMirror) -> Seq<u8> {
    seq![m.dest_addr_ton.spec_to_u8()] + seq![m.dest_addr_npi.spec_to_u8()] + m.destination_addr
        + submit_sm_mid_enc(m)
}

/// Round trip of the destination stage of a `submit_sm` body.
#[verifier::rlimit(100)]
#[verifier::spinoff_prover]
proof fn lemma_submit_sm_dest_round_trip(m: SubmitSmMirror, used: int)
    requires
        submit_sm_mirror_wf(m),
        0 <= used,
        used + submit_sm_dest_enc(m).len() <= usize::MAX,
    ensures
        spec_decode_submit_sm_dest(
            submit_sm_dest_enc(m),
            m.service_type,
            m.source_addr_ton.spec_to_u8(),
            m.source_addr_npi.spec_to_u8(),
            m.source_addr,
            used,
        ) == Ok::<(SubmitSmMirror, usize), DecodeError>(
            (m, (used + submit_sm_dest_enc(m).len()) as usize),
        ),
{
    let t7 = submit_sm_mid_enc(m);
    let t6 = m.destination_addr + t7;
    let t5 = seq![m.dest_addr_npi.spec_to_u8()] + t6;
    let s4 = submit_sm_dest_enc(m);
    assert(s4 =~= seq![m.dest_addr_ton.spec_to_u8()] + t5);

    lemma_u8_round_trip(m.dest_addr_ton.spec_to_u8(), t5);
    lemma_add_then_skip(seq![m.dest_addr_ton.spec_to_u8()], t5);
    crate::values::lemma_ton_round_trip(m.dest_addr_ton);
    assert(sdrop(s4, 1) == t5);

    lemma_u8_round_trip(m.dest_addr_npi.spec_to_u8(), t6);
    lemma_add_then_skip(seq![m.dest_addr_npi.spec_to_u8()], t6);
    crate::values::lemma_npi_round_trip(m.dest_addr_npi);
    assert(sdrop(t5, 1) == t6);

    lemma_c_octet_round_trip(m.destination_addr, t7, 1, 21);
    lemma_add_then_skip(m.destination_addr, t7);
    assert(sdrop(t6, m.destination_addr.len() as int) == t7);
    assert(spec_decode_c_octet(t6, 1, 21) == Ok::<(Seq<u8>, usize), COctetStringDecodeError>(
        (m.destination_addr, m.destination_addr.len() as usize),
    ));

    lemma_submit_sm_mid_round_trip(
        m,
        SubmitSmHead {
            service_type: m.service_type,
            ston_b: m.source_addr_ton.spec_to_u8(),
            snpi_b: m.source_addr_npi.spec_to_u8(),
            source_addr: m.source_addr,
            dton_b: m.dest_addr_ton.spec_to_u8(),
            dnpi_b: m.dest_addr_npi.spec_to_u8(),
            destination_addr: m.destination_addr,
        },
        used + 2 + m.destination_addr.len(),
    );
}

/// Round trip: decoding the encoding of well-formed `submit_sm` field
/// values yields exactly those values and consumes the whole encoding.
#[verifier::rlimit(100)]
#[verifier::spinoff_prover]
pub proof fn lemma_submit_sm_round_trip(m: SubmitSmMirror)
    requires
        submit_sm_mirror_wf(m),
        submit_sm_enc(m).len() <= usize::MAX,
    ensures
        spec_decode_submit_sm(submit_sm_enc(m)) == Ok::<(SubmitSmMirror, usize), DecodeError>(
            (m, submit_sm_enc(m).len() as usize),
        ),
{
    let t4 = submit_sm_dest_enc(m);
    let t3 = m.source_addr + t4;
    let t2 = seq![m.source_addr_npi.spec_to_u8()] + t3;
    let t1 = seq![m.source_addr_ton.spec_to_u8()] + t2;
    let s = submit_sm_enc(m);
    assert(s =~= m.service_type + t1);

    lemma_c_octet_round_trip(m.service_type, t1, 1, 6);
    lemma_add_then_skip(m.service_type, t1);
    assert(sdrop(s, m.service_type.len() as int) == t1);
    assert(spec_decode_c_octet(s, 1, 6) == Ok::<(Seq<u8>, usize), COctetStringDecodeError>(
        (m.service_type, m.service_type.len() as usize),
    ));

    lemma_u8_round_trip(m.source_addr_ton.spec_to_u8(), t2);
    lemma_add_then_skip(seq![m.source_addr_ton.spec_to_u8()], t2);
    crate::values::lemma_ton_round_trip(m.source_addr_ton);
    assert(sdrop(t1, 1) == t2);

    lemma_u8_round_trip(m.source_addr_npi.spec_to_u8(), t3);
    lemma_add_then_skip(seq![m.source_addr_npi.spec_to_u8()], t3);
    crate::values::lemma_npi_round_trip(m.source_addr_npi);
    assert(sdrop(t2, 1) == t3);

    lemma_c_octet_round_trip(m.source_addr, t4, 1, 21);
    lemma_add_then_skip(m.source_addr, t4);
    assert(sdrop(t3, m.source_addr.len() as int) == t4);
    assert(spec_decode_c_octet(t3, 1, 21) == Ok::<(Seq<u8>, usize), COctetStringDecodeError>(
        (m.source_addr, m.source_addr.len() as usize),
    ));

    let used = m.service_type.len() + 2 + m.source_addr.len();
    assert(s.len() == used + t4.len());
    lemma_submit_sm_dest_round_trip(m, used as int);
}

/// The response to a `submit_sm`: the message id the MC assigned, and any
/// optional parameters.
#[derive(Debug, Clone, PartialEq, Eq, Hash)]
pub struct SubmitSmResp {
    /// The MC's id for the submitted message.
    pub message_id: COctetString<1, 65>,
    tlvs: Vec<Tlv>,
}

impl SubmitSmResp {
    pub closed spec fn spec_tlvs(self) -> Seq<Tlv> {
        self.tlvs@
    }

    pub closed spec fn wf(self) -> bool {
        &&& self.message_id.wf()
        &&& forall|i: int| 0 <= i < self.spec_tlvs().len() ==> (#[trigger] self.spec_tlvs()[i]).wf()
    }

    /// The field values as they stand on the wire.
    pub closed spec fn mirror(self) -> (Seq<u8>, Seq<(TlvTag, u16, Seq<u8>)>) {
        (self.message_id@, self.spec_tlvs().map_values(|t: Tlv| t.mirror()))
    }

    /// The on-wire form of the body.
    pub closed spec fn spec_encoded(self) -> Seq<u8> {
        self.message_id@ + tlvs_enc(self.spec_tlvs().map_values(|t: Tlv| t.mirror()))
    }

    pub fn new(message_id: COctetString<1, 65>, tlvs: Vec<Tlv>) -> (r: Self)
        ensures
            r.spec_tlvs() == tlvs@,
            r.mirror() == (message_id@, tlvs@.map_values(|t: Tlv| t.mirror())),
            message_id.wf() && (forall|i: int|
                0 <= i < tlvs@.len() ==> (#[trigger] tlvs@[i]).wf()) ==> r.wf(),
    {
        Self { message_id, tlvs }
    }

    /// The trailing optional parameters.
    pub fn tlvs(&self) -> (r: &Vec<Tlv>)
        ensures
            r@ == self.spec_tlvs(),
    {
        &self.tlvs
    }

    /// Total size of the body in bytes.
    pub fn length(&self) -> (r: usize)
        requires
            self.wf(),
            self.spec_encoded().len() <= usize::MAX,
        ensures
            r == self.spec_encoded().len(),
    {
        let tlvs_len = tlvs_total_length(&self.tlvs);
        self.message_id.length() + tlvs_len
    }

    /// Appends the on-wire form of the body.
    pub fn encode_to(&self, dst: &mut Vec<u8>)
        ensures
            final(dst)@ == old(dst)@ + self.spec_encoded(),
    {
        self.message_id.encode_to(dst);
        encode_tlvs_to(&self.tlvs, dst);
        assert(final(dst)@ =~= old(dst)@ + self.spec_encoded());
    }

    /// What decoding a `submit_sm_resp` body from `s` yields; the TLVs run
    /// to the end of the buffer.
    pub open spec fn spec_decode(s: Seq<u8>) -> Result<
        ((Seq<u8>, Seq<(TlvTag, u16, Seq<u8>)>), usize),
        DecodeError,
    > {
        match spec_decode_c_octet(s, 1, 65) {
            Err(e) => Err(DecodeError::spec_c_octet(e)),
            Ok((message_id, n1)) => {
                let s1 = sdrop(s, n1 as int);
                match spec_decode_tlvs(s1) {
                    Err(e) => Err(e),
                    Ok(tlvs) => Ok(((message_id, tlvs), (n1 + s1.len()) as usize)),
                }
            },
        }
    }

    /// Reads a whole `submit_sm_resp` body off the front of `src`.
    pub fn decode(src: &[u8]) -> (r: Result<(Self, usize), DecodeError>)
        ensures
            match r {
                Ok((v, n)) => {
                    &&& v.wf()
                    &&& n <= src@.len()
                    &&& Self::spec_decode(src@) == Ok::<
                        ((Seq<u8>, Seq<(TlvTag, u16, Seq<u8>)>), usize),
                        DecodeError,
                    >((v.mirror(), n))
                },
                Err(e) => Self::spec_decode(src@) == Err::<
                    ((Seq<u8>, Seq<(TlvTag, u16, Seq<u8>)>), usize),
                    DecodeError,
                >(e),
            },
    {
        let (message_id, n1) = match COctetString::<1, 65>::decode(src) {
            Ok(p) => p,
            Err(e) => {
                return Err(DecodeError::c_octet_string_decode_error(e));
            },
        };
        let src_len: usize = src.len();
        let rem = slice_skip(src, n1);
        let tail_len = rem.len();
        let tlvs = match decode_tlvs(rem) {
            Ok(v) => v,
            Err(e) => {
                return Err(e);
            },
        };
        proof {
            assert(n1 + tail_len == src_len);
        }
        Ok((Self { message_id, tlvs }, n1 + tail_len))
    }
}

/// Round trip of a `submit_sm_resp` body.
pub proof fn lemma_submit_sm_resp_round_trip(v: SubmitSmResp)
    requires
        v.wf(),
    ensures
        SubmitSmResp::spec_decode(v.spec_encoded()) == Ok::<
            ((Seq<u8>, Seq<(TlvTag, u16, Seq<u8>)>), usize),
            DecodeError,
        >((v.mirror(), v.spec_encoded().len() as usize)),
{
    let ms = v.spec_tlvs().map_values(|t: Tlv| t.mirror());
    let tail = tlvs_enc(ms);
    let s = v.spec_encoded();
    assert(s =~= v.message_id@ + tail);
    lemma_c_octet_round_trip(v.message_id@, tail, 1, 65);
    lemma_add_then_skip(v.message_id@, tail);
    assert(tlvs_mirror_wf(ms)) by {
        assert forall|i: int| 0 <= i < ms.len() implies (#[trigger] ms[i]).0.wf() && ms[i].1
            == ms[i].2.len() by {
            assert(ms[i] == v.spec_tlvs()[i].mirror());
            assert(v.spec_tlvs()[i].wf());
        }
    }
    lemma_tlvs_round_trip(ms);
}

} // verus!
