//! The bind operations and their responses.
//!
//! `bind_transmitter`, `bind_receiver` and `bind_transceiver` all carry the
//! same body: the credentials and addressing defaults of the ESME. Which of
//! the three roles is requested travels in the command id, so one body type
//! serves all three. The response carries the MC's system id.

use vstd::prelude::*;

use crate::codec::decode_u8;
use crate::codec::encode_u8_to;
use crate::codec::sdrop;
use crate::codec::slice_skip;
use crate::codec::spec_decode_u8;
use crate::codec::lemma_u8_round_trip;
use crate::codec::lemma_add_then_skip;
use crate::errors::DecodeError;
use crate::strings::COctetString;
use crate::strings::c_octet_wf;
use crate::strings::spec_decode_c_octet;
use crate::strings::lemma_c_octet_round_trip;
use crate::values::InterfaceVersion;
use crate::values::Npi;
use crate::values::Ton;

verus! {

/// The field values of a bind body as they stand on the wire.
pub struct BindMirror {
    pub system_id: Seq<u8>,
    pub password: Seq<u8>,
    pub system_type: Seq<u8>,
    pub interface_version: u8,
    pub addr_ton: Ton,
    pub addr_npi: Npi,
    pub address_range: Seq<u8>,
}

/// Well-formed bind field values: every string within its wire bounds.
pub open spec fn bind_mirror_wf(m: BindMirror) -> bool {
    &&& c_octet_wf(m.system_id, 1, 16)
    &&& c_octet_wf(m.password, 1, 9)
    &&& c_octet_wf(m.system_type, 1, 13)
    &&& m.addr_ton.wf()
    &&& m.addr_npi.wf()
    &&& c_octet_wf(m.address_range, 1, 41)
}

/// The on-wire form of a bind body.
pub open spec fn bind_enc(m: BindMirror) -> Seq<u8> {
    m.system_id + m.password + m.system_type + seq![m.interface_version] + seq![
        m.addr_ton.spec_to_u8(),
    ] + seq![m.addr_npi.spec_to_u8()] + m.address_range
}

/// What decoding a bind body from `s` yields.
pub open spec fn spec_decode_bind(s: Seq<u8>) -> Result<(BindMirror, usize), DecodeError> {
    match spec_decode_c_octet(s, 1, 16) {
        Err(e) => Err(DecodeError::spec_c_octet(e)),
        Ok((system_id, n1)) => {
            let s1 = sdrop(s, n1 as int);
            match spec_decode_c_octet(s1, 1, 9) {
                Err(e) => Err(DecodeError::spec_c_octet(e)),
                Ok((password, n2)) => {
                    let s2 = sdrop(s1, n2 as int);
                    match spec_decode_c_octet(s2, 1, 13) {
                        Err(e) => Err(DecodeError::spec_c_octet(e)),
                        Ok((system_type, n3)) => {
                            let s3 = sdrop(s2, n3 as int);
                            match spec_decode_u8(s3) {
                                Err(e) => Err(DecodeError::spec_integer(e)),
                                Ok((iv, _)) => {
                                    let s4 = sdrop(s3, 1);
                                    match spec_decode_u8(s4) {
                                        Err(e) => Err(DecodeError::spec_integer(e)),
                                        Ok((ton_b, _)) => {
                                            let s5 = sdrop(s4, 1);
                                            match spec_decode_u8(s5) {
                                                Err(e) => Err(DecodeError::spec_integer(e)),
                                                Ok((npi_b, _)) => {
                                                    let s6 = sdrop(s5, 1);
                                                    match spec_decode_c_octet(s6, 1, 41) {
                                                        Err(e) => Err(DecodeError::spec_c_octet(e)),
                                                        Ok((address_range, n7)) => Ok(
                                                            (
                                                                BindMirror {
                                                                    system_id,
                                                                    password,
                                                                    system_type,
                                                                    interface_version: iv,
                                                                    addr_ton: Ton::spec_from_u8(
                                                                        ton_b,
                                                                    ),
                                                                    addr_npi: Npi::spec_from_u8(
                                                                        npi_b,
                                                                    ),
                                                                    address_range,
                                                                },
                                                                (n1 + n2 + n3 + 3 + n7) as usize,
                                                            ),
                                                        ),
                                                    }
                                                },
                                            }
                                        },
                                    }
                                },
                            }
                        },
                    }
                },
            }
        },
    }
}

/// The body of the three bind operations: the ESME's credentials and its
/// addressing defaults.
#[derive(Debug, Clone, PartialEq, Eq, Hash)]
pub struct Bind {
    /// Identifies the ESME to the MC.
    pub system_id: COctetString<1, 16>,
    /// Authenticates the ESME.
    pub password: COctetString<1, 9>,
    /// Categorises the type of ESME.
    pub system_type: COctetString<1, 13>,
    /// The SMPP version the ESME supports.
    pub interface_version: InterfaceVersion,
    /// Type of Number of the ESME address; NULL when unknown.
    pub addr_ton: Ton,
    /// Numbering Plan Indicator of the ESME address; NULL when unknown.
    pub addr_npi: Npi,
    /// Which addresses this ESME serves; NULL for all.
    pub address_range: COctetString<1, 41>,
}

impl Bind {
    pub open spec fn wf(self) -> bool {
        &&& self.system_id.wf()
        &&& self.password.wf()
        &&& self.system_type.wf()
        &&& self.addr_ton.wf()
        &&& self.addr_npi.wf()
        &&& self.address_range.wf()
    }

    pub open spec fn mirror(self) -> BindMirror {
        BindMirror {
            system_id: self.system_id@,
            password: self.password@,
            system_type: self.system_type@,
            interface_version: self.interface_version.value,
            addr_ton: self.addr_ton,
            addr_npi: self.addr_npi,
            address_range: self.address_range@,
        }
    }

    pub fn new(
        system_id: COctetString<1, 16>,
        password: COctetString<1, 9>,
        system_type: COctetString<1, 13>,
        interface_version: InterfaceVersion,
        addr_ton: Ton,
        addr_npi: Npi,
        address_range: COctetString<1, 41>,
    ) -> (r: Self)
        ensures
            r == (Bind {
                system_id,
                password,
                system_type,
                interface_version,
                addr_ton,
                addr_npi,
                address_range,
            }),
    {
        Self { system_id, password, system_type, interface_version, addr_ton, addr_npi, address_range }
    }

    /// Total size of the body in bytes.
    pub fn length(&self) -> (r: usize)
        requires
            self.wf(),
        ensures
            r == bind_enc(self.mirror()).len(),
    {
        self.system_id.length() + self.password.length() + self.system_type.length() + 3
            + self.address_range.length()
    }

    /// Appends the on-wire form of the body.
    pub fn encode_to(&self, dst: &mut Vec<u8>)
        ensures
            final(dst)@ == old(dst)@ + bind_enc(self.mirror()),
    {
        self.system_id.encode_to(dst);
        self.password.encode_to(dst);
        self.system_type.encode_to(dst);
        encode_u8_to(self.interface_version.value, dst);
        encode_u8_to(self.addr_ton.to_u8(), dst);
        encode_u8_to(self.addr_npi.to_u8(), dst);
        self.address_range.encode_to(dst);
        assert(final(dst)@ =~= old(dst)@ + bind_enc(self.mirror()));
    }

    /// Reads a whole bind body off the front of `src`.
    #[verifier::rlimit(50)]
    pub fn decode(src: &[u8]) -> (r: Result<(Self, usize), DecodeError>)
        ensures
            match r {
                Ok((v, n)) => {
                    &&& v.wf()
                    &&& n <= src@.len()
                    &&& spec_decode_bind(src@) == Ok::<(BindMirror, usize), DecodeError>(
                        (v.mirror(), n),
                    )
                },
                Err(e) => spec_decode_bind(src@) == Err::<(BindMirror, usize), DecodeError>(e),
            },
    {
        let mut off: usize = 0;
        let (system_id, n1) = match COctetString::<1, 16>::decode(src) {
            Ok(p) => p,
            Err(e) => {
                return Err(DecodeError::c_octet_string_decode_error(e));
            },
        };
        off = n1;
        let rem = slice_skip(src, off);
        let (password, n2) = match COctetString::<1, 9>::decode(rem) {
            Ok(p) => p,
            Err(e) => {
                return Err(DecodeError::c_octet_string_decode_error(e));
            },
        };
        proof {
            assert(sdrop(src@, off as int).skip(n2 as int) =~= sdrop(src@, off + n2));
        }
        off = off + n2;
        let rem = slice_skip(src, off);
        let (system_type, n3) = match COctetString::<1, 13>::decode(rem) {
            Ok(p) => p,
            Err(e) => {
                return Err(DecodeError::c_octet_string_decode_error(e));
            },
        };
        proof {
            assert(sdrop(src@, off as int).skip(n3 as int) =~= sdrop(src@, off + n3));
        }
        off = off + n3;
        let rem = slice_skip(src, off);
        let (iv, _) = match decode_u8(rem) {
            Ok(p) => p,
            Err(e) => {
                return Err(DecodeError::integer_decode_error(e));
            },
        };
        proof {
            assert(sdrop(src@, off as int).skip(1) =~= sdrop(src@, off + 1));
        }
        off = off + 1;
        let rem = slice_skip(src, off);
        let (ton_b, _) = match decode_u8(rem) {
            Ok(p) => p,
            Err(e) => {
                return Err(DecodeError::integer_decode_error(e));
            },
        };
        proof {
            assert(sdrop(src@, off as int).skip(1) =~= sdrop(src@, off + 1));
        }
        off = off + 1;
        let rem = slice_skip(src, off);
        let (npi_b, _) = match decode_u8(rem) {
            Ok(p) => p,
            Err(e) => {
                return Err(DecodeError::integer_decode_error(e));
            },
        };
        proof {
            assert(sdrop(src@, off as int).skip(1) =~= sdrop(src@, off + 1));
        }
        off = off + 1;
        let rem = slice_skip(src, off);
        let (address_range, n7) = match COctetString::<1, 41>::decode(rem) {
            Ok(p) => p,
            Err(e) => {
                return Err(DecodeError::c_octet_string_decode_error(e));
            },
        };
        off = off + n7;
        let v = Self {
            system_id,
            password,
            system_type,
            interface_version: InterfaceVersion::new(iv),
            addr_ton: Ton::from_u8(ton_b),
            addr_npi: Npi::from_u8(npi_b),
            address_range,
        };
        Ok((v, off))
    }
}

/// Round trip: decoding the encoding of well-formed bind field values
/// yields exactly those values and consumes the whole encoding.
#[verifier::rlimit(50)]
pub proof fn lemma_bind_round_trip(m: BindMirror, rest: Seq<u8>)
    requires
        bind_mirror_wf(m),
    ensures
        spec_decode_bind(bind_enc(m) + rest) == Ok::<(BindMirror, usize), DecodeError>(
            (m, bind_enc(m).len() as usize),
        ),
{
    let t6 = m.address_range + rest;
    let t5 = seq![m.addr_npi.spec_to_u8()] + t6;
    let t4 = seq![m.addr_ton.spec_to_u8()] + t5;
    let t3 = seq![m.interface_version] + t4;
    let t2 = m.system_type + t3;
    let t1 = m.password + t2;
    let s = bind_enc(m) + rest;
    assert(s =~= m.system_id + t1);

    lemma_c_octet_round_trip(m.system_id, t1, 1, 16);
    lemma_add_then_skip(m.system_id, t1);
    assert(sdrop(s, m.system_id.len() as int) == t1);

    lemma_c_octet_round_trip(m.password, t2, 1, 9);
    lemma_add_then_skip(m.password, t2);
    assert(sdrop(t1, m.password.len() as int) == t2);

    lemma_c_octet_round_trip(m.system_type, t3, 1, 13);
    lemma_add_then_skip(m.system_type, t3);
    assert(sdrop(t2, m.system_type.len() as int) == t3);

    lemma_u8_round_trip(m.interface_version, t4);
    lemma_add_then_skip(seq![m.interface_version], t4);
    assert(sdrop(t3, 1) == t4);

    lemma_u8_round_trip(m.addr_ton.spec_to_u8(), t5);
    lemma_add_then_skip(seq![m.addr_ton.spec_to_u8()], t5);
    crate::values::lemma_ton_round_trip(m.addr_ton);
    assert(sdrop(t4, 1) == t5);

    lemma_u8_round_trip(m.addr_npi.spec_to_u8(), t6);
    lemma_add_then_skip(seq![m.addr_npi.spec_to_u8()], t6);
    crate::values::lemma_npi_round_trip(m.addr_npi);
    assert(sdrop(t5, 1) == t6);

    lemma_c_octet_round_trip(m.address_range, rest, 1, 41);
}

/// The body of the three bind responses: the MC's system id. An optional
/// `sc_interface_version` TLV may follow; it is kept as a raw TLV.
#[derive(Debug, Clone, PartialEq, Eq, Hash)]
pub struct BindResp {
    /// Identifies the MC to the ESME.
    pub system_id: COctetString<1, 16>,
    /// The SMPP version the MC supports, when it announces one.
    pub sc_interface_version: Option<crate::tlv::Tlv>,
}

impl BindResp {
    pub open spec fn wf(self) -> bool {
        &&& self.system_id.wf()
        &&& match self.sc_interface_version {
            Some(t) => t.wf(),
            None => true,
        }
    }

    /// The field values as they stand on the wire.
    pub open spec fn mirror(self) -> (Seq<u8>, Option<(crate::tlv::TlvTag, u16, Seq<u8>)>) {
        (
            self.system_id@,
            match self.sc_interface_version {
                Some(t) => Some(t.mirror()),
                None => None,
            },
        )
    }

    pub fn new(system_id: COctetString<1, 16>, sc_interface_version: Option<crate::tlv::Tlv>) -> (r:
        Self)
        ensures
            r == (BindResp { system_id, sc_interface_version }),
    {
        Self { system_id, sc_interface_version }
    }

    /// The on-wire form of the body.
    pub open spec fn spec_encoded(self) -> Seq<u8> {
        self.system_id@ + match self.sc_interface_version {
            Some(t) => t.spec_encoded(),
            None => Seq::<u8>::empty(),
        }
    }

    /// Total size of the body in bytes.
    pub fn length(&self) -> (r: usize)
        requires
            self.wf(),
        ensures
            r == self.spec_encoded().len(),
    {
        let tlv_len = match &self.sc_interface_version {
            Some(t) => t.length(),
            None => 0,
        };
        self.system_id.length() + tlv_len
    }

    /// Appends the on-wire form of the body.
    pub fn encode_to(&self, dst: &mut Vec<u8>)
        ensures
            final(dst)@ == old(dst)@ + self.spec_encoded(),
    {
        self.system_id.encode_to(dst);
        match &self.sc_interface_version {
            Some(t) => t.encode_to(dst),
            None => (),
        }
        assert(final(dst)@ =~= old(dst)@ + self.spec_encoded());
    }

    /// What decoding a bind response body from `s` yields: the system id
    /// and, if bytes remain, one TLV.
    pub open spec fn spec_decode(s: Seq<u8>) -> Result<
        ((Seq<u8>, Option<(crate::tlv::TlvTag, u16, Seq<u8>)>), usize),
        DecodeError,
    > {
        match spec_decode_c_octet(s, 1, 16) {
            Err(e) => Err(DecodeError::spec_c_octet(e)),
            Ok((system_id, n1)) => {
                let s1 = sdrop(s, n1 as int);
                if s1.len() == 0 {
                    Ok(((system_id, None), n1))
                } else {
                    match crate::tlv::spec_decode_tlv(s1) {
                        Err(e) => Err(e),
                        Ok((tm, nt)) => Ok(((system_id, Some(tm)), (n1 + nt) as usize)),
                    }
                }
            },
        }
    }

    /// Reads a whole bind response body off the front of `src`.
    pub fn decode(src: &[u8]) -> (r: Result<(Self, usize), DecodeError>)
        ensures
            match r {
                Ok((v, n)) => {
                    &&& v.wf()
                    &&& n <= src@.len()
                    &&& Self::spec_decode(src@) == Ok::<
                        ((Seq<u8>, Option<(crate::tlv::TlvTag, u16, Seq<u8>)>), usize),
                        DecodeError,
                    >((v.mirror(), n))
                },
                Err(e) => Self::spec_decode(src@) == Err::<
                    ((Seq<u8>, Option<(crate::tlv::TlvTag, u16, Seq<u8>)>), usize),
                    DecodeError,
                >(e),
            },
    {
        let (system_id, n1) = match COctetString::<1, 16>::decode(src) {
            Ok(p) => p,
            Err(e) => {
                return Err(DecodeError::c_octet_string_decode_error(e));
            },
        };
        let rem = slice_skip(src, n1);
        if rem.len() == 0 {
            return Ok((Self { system_id, sc_interface_version: None }, n1));
        }
        let (t, nt) = match crate::tlv::Tlv::decode(rem) {
            Ok(p) => p,
            Err(e) => {
                return Err(e);
            },
        };
        Ok((Self { system_id, sc_interface_version: Some(t) }, n1 + nt))
    }
}

/// Round trip of a bind response body.
pub proof fn lemma_bind_resp_round_trip(v: BindResp)
    requires
        v.wf(),
    ensures
        BindResp::spec_decode(v.spec_encoded()) == Ok::<
            ((Seq<u8>, Option<(crate::tlv::TlvTag, u16, Seq<u8>)>), usize),
            DecodeError,
        >((v.mirror(), v.spec_encoded().len() as usize)),
{
    let tail = match v.sc_interface_version {
        Some(t) => t.spec_encoded(),
        None => Seq::<u8>::empty(),
    };
    let s = v.spec_encoded();
    assert(s =~= v.system_id@ + tail);
    lemma_c_octet_round_trip(v.system_id@, tail, 1, 16);
    lemma_add_then_skip(v.system_id@, tail);
    match v.sc_interface_version {
        Some(t) => {
            crate::tlv::lemma_tlv_round_trip(
                t.mirror().0,
                t.mirror().1,
                t.mirror().2,
                Seq::<u8>::empty(),
            );
            assert(crate::tlv::tlv_enc(t.mirror().0, t.mirror().1, t.mirror().2)
                + Seq::<u8>::empty() =~= t.spec_encoded());
            assert(tail.len() > 0);
        },
        None => {
            assert(tail.len() == 0);
        },
    }
}

} // verus!
