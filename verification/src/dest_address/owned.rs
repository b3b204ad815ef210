//! Owning destination-address values: each carries its own allocation.

use vstd::prelude::*;

use crate::codec::decode_u8;
use crate::codec::encode_u8_to;
use crate::codec::sdrop;
use crate::codec::slice_skip;
use crate::dest_address::DestAddressMirror;
use crate::dest_address::DestAddressValueMirror;
use crate::dest_address::SmeAddressMirror;
use crate::dest_address::dest_address_enc;
use crate::dest_address::dest_value_enc;
use crate::dest_address::dest_value_flag;
use crate::dest_address::sme_enc;
use crate::dest_address::spec_decode_dest_address;
use crate::dest_address::spec_decode_dest_value;
use crate::dest_address::spec_decode_dln;
use crate::dest_address::spec_decode_sme;
use crate::errors::DecodeError;
use crate::strings::COctetString;
use crate::values::DestFlag;
use crate::values::Npi;
use crate::values::Ton;

verus! {

/// SME Format Destination Address.
#[derive(Debug, Clone, PartialEq, Eq, Hash)]
pub struct SmeAddress {
    /// Type of Number for destination.
    pub dest_addr_ton: Ton,
    /// Numbering Plan Indicator for destination.
    pub dest_addr_npi: Npi,
    /// Destination address of this short message.
    pub destination_addr: COctetString<1, 21>,
}

impl SmeAddress {
    pub open spec fn wf(self) -> bool {
        &&& self.dest_addr_ton.wf()
        &&& self.dest_addr_npi.wf()
        &&& self.destination_addr.wf()
    }

    pub open spec fn mirror(self) -> SmeAddressMirror {
        SmeAddressMirror {
            dest_addr_ton: self.dest_addr_ton,
            dest_addr_npi: self.dest_addr_npi,
            destination_addr: self.destination_addr@,
        }
    }

    pub fn new(dest_addr_ton: Ton, dest_addr_npi: Npi, destination_addr: COctetString<1, 21>) -> (r:
        Self)
        ensures
            r.dest_addr_ton == dest_addr_ton,
            r.dest_addr_npi == dest_addr_npi,
            r.destination_addr == destination_addr,
    {
        Self { dest_addr_ton, dest_addr_npi, destination_addr }
    }

    /// Total on-wire size in bytes.
    pub fn length(&self) -> (r: usize)
        requires
            self.wf(),
        ensures
            r == sme_enc(self.mirror()).len(),
    {
        2 + self.destination_addr.length()
    }

    /// Appends the on-wire form.
    pub fn encode_to(&self, dst: &mut Vec<u8>)
        ensures
            final(dst)@ == old(dst)@ + sme_enc(self.mirror()),
    {
        encode_u8_to(self.dest_addr_ton.to_u8(), dst);
        encode_u8_to(self.dest_addr_npi.to_u8(), dst);
        self.destination_addr.encode_to(dst);
        assert(final(dst)@ =~= old(dst)@ + sme_enc(self.mirror()));
    }

    /// Reads one SME-format destination off the front of `src`.
    pub fn decode(src: &[u8]) -> (r: Result<(Self, usize), DecodeError>)
        ensures
            match r {
                Ok((v, n)) => {
                    &&& v.wf()
                    &&& n <= src@.len()
                    &&& spec_decode_sme(src@) == Ok::<(SmeAddressMirror, usize), DecodeError>(
                        (v.mirror(), n),
                    )
                },
                Err(e) => spec_decode_sme(src@) == Err::<(SmeAddressMirror, usize), DecodeError>(e),
            },
    {
        let (ton_b, _) = match decode_u8(src) {
            Ok(p) => p,
            Err(e) => {
                return Err(DecodeError::integer_decode_error(e));
            },
        };
        let rem = slice_skip(src, 1);
        let (npi_b, _) = match decode_u8(rem) {
            Ok(p) => p,
            Err(e) => {
                return Err(DecodeError::integer_decode_error(e));
            },
        };
        proof {
            assert(sdrop(sdrop(src@, 1), 1) =~= sdrop(src@, 2));
        }
        let rem = slice_skip(src, 2);
        let (destination_addr, n) = match COctetString::<1, 21>::decode(rem) {
            Ok(p) => p,
            Err(e) => {
                return Err(DecodeError::c_octet_string_decode_error(e));
            },
        };
        let v = Self {
            dest_addr_ton: Ton::from_u8(ton_b),
            dest_addr_npi: Npi::from_u8(npi_b),
            destination_addr,
        };
        Ok((v, 2 + n))
    }
}

/// Distribution List Format Destination Address.
#[derive(Debug, Clone, PartialEq, Eq, Hash)]
pub struct DistributionListName {
    /// Name of Distribution List.
    pub dl_name: COctetString<1, 21>,
}

impl DistributionListName {
    pub open spec fn wf(self) -> bool {
        self.dl_name.wf()
    }

    pub fn new(dl_name: COctetString<1, 21>) -> (r: Self)
        ensures
            r.dl_name == dl_name,
    {
        Self { dl_name }
    }

    /// Total on-wire size in bytes.
    pub fn length(&self) -> (r: usize)
        ensures
            r == self.dl_name@.len(),
    {
        self.dl_name.length()
    }

    /// Appends the on-wire form.
    pub fn encode_to(&self, dst: &mut Vec<u8>)
        ensures
            final(dst)@ == old(dst)@ + self.dl_name@,
    {
        self.dl_name.encode_to(dst);
    }

    /// Reads one distribution-list name off the front of `src`.
    pub fn decode(src: &[u8]) -> (r: Result<(Self, usize), DecodeError>)
        ensures
            match r {
                Ok((v, n)) => {
                    &&& v.wf()
                    &&& n <= src@.len()
                    &&& spec_decode_dln(src@) == Ok::<(Seq<u8>, usize), DecodeError>((v.dl_name@, n))
                },
                Err(e) => spec_decode_dln(src@) == Err::<(Seq<u8>, usize), DecodeError>(e),
            },
    {
        let (dl_name, n) = match COctetString::<1, 21>::decode(src) {
            Ok(p) => p,
            Err(e) => {
                return Err(DecodeError::c_octet_string_decode_error(e));
            },
        };
        Ok((Self { dl_name }, n))
    }
}

/// The value of a destination address: one of the two defined formats.
#[derive(Debug, Clone, PartialEq, Eq, Hash)]
pub enum DestAddressValue {
    /// SME Format Destination Address.
    SmeAddress(SmeAddress),
    /// Distribution List Format Destination Address.
    DistributionListName(DistributionListName),
}

impl DestAddressValue {
    pub open spec fn wf(self) -> bool {
        match self {
            DestAddressValue::SmeAddress(sa) => sa.wf(),
            DestAddressValue::DistributionListName(dlm) => dlm.wf(),
        }
    }

    pub open spec fn mirror(self) -> DestAddressValueMirror {
        match self {
            DestAddressValue::SmeAddress(sa) => DestAddressValueMirror::SmeAddress(sa.mirror()),
            DestAddressValue::DistributionListName(dlm) => DestAddressValueMirror::DistributionListName(
                dlm.dl_name@,
            ),
        }
    }

    pub open spec fn spec_flag(self) -> DestFlag {
        dest_value_flag(self.mirror())
    }

    /// The flag this value is discriminated by.
    pub fn flag(&self) -> (r: DestFlag)
        ensures
            r == self.spec_flag(),
    {
        match self {
            DestAddressValue::SmeAddress(_) => DestFlag::SmeAddress,
            DestAddressValue::DistributionListName(_) => DestFlag::DistributionListName,
        }
    }

    /// Total on-wire size in bytes, the flag not included.
    pub fn length(&self) -> (r: usize)
        requires
            self.wf(),
        ensures
            r == dest_value_enc(self.mirror()).len(),
    {
        match self {
            DestAddressValue::SmeAddress(sa) => sa.length(),
            DestAddressValue::DistributionListName(dlm) => dlm.length(),
        }
    }

    /// Appends the on-wire form, the flag not included.
    pub fn encode_to(&self, dst: &mut Vec<u8>)
        ensures
            final(dst)@ == old(dst)@ + dest_value_enc(self.mirror()),
    {
        match self {
            DestAddressValue::SmeAddress(sa) => sa.encode_to(dst),
            DestAddressValue::DistributionListName(dlm) => dlm.encode_to(dst),
        }
    }

    /// Reads the value under an already-decoded flag; any flag but the two
    /// defined ones is refused as an unsupported key.
    pub fn decode(key: DestFlag, src: &[u8]) -> (r: Result<(Self, usize), DecodeError>)
        ensures
            match r {
                Ok((v, n)) => {
                    &&& v.wf()
                    &&& n <= src@.len()
                    &&& spec_decode_dest_value(key, src@) == Ok::<
                        (DestAddressValueMirror, usize),
                        DecodeError,
                    >((v.mirror(), n))
                },
                Err(e) => spec_decode_dest_value(key, src@) == Err::<
                    (DestAddressValueMirror, usize),
                    DecodeError,
                >(e),
            },
    {
        match key {
            DestFlag::SmeAddress => match SmeAddress::decode(src) {
                Ok((v, n)) => Ok((Self::SmeAddress(v), n)),
                Err(e) => Err(e),
            },
            DestFlag::DistributionListName => match DistributionListName::decode(src) {
                Ok((v, n)) => Ok((Self::DistributionListName(v), n)),
                Err(e) => Err(e),
            },
            DestFlag::Other(flag) => Err(DecodeError::unsupported_key(flag as u32)),
        }
    }
}

/// A whole destination address: the discriminating flag and the value it
/// announces. The flag always matches the value.
#[derive(Debug, Clone, PartialEq, Eq, Hash)]
pub struct DestAddress {
    flag: DestFlag,
    value: DestAddressValue,
}

impl DestAddress {
    /// Spec-level accessors.
    pub closed spec fn spec_flag(self) -> DestFlag {
        self.flag
    }

    pub closed spec fn spec_value(self) -> DestAddressValue {
        self.value
    }

    /// The type's invariant: the flag is the value's own.
    pub open spec fn wf(self) -> bool {
        &&& self.spec_flag() == self.spec_value().spec_flag()
        &&& self.spec_value().wf()
    }

    pub open spec fn mirror(self) -> DestAddressMirror {
        DestAddressMirror { flag: self.spec_flag(), value: self.spec_value().mirror() }
    }

    /// Wraps a value, deriving the flag from it.
    pub fn new(value: DestAddressValue) -> (r: Self)
        ensures
            r.spec_value() == value,
            r.spec_flag() == value.spec_flag(),
            value.wf() ==> r.wf(),
    {
        let flag = value.flag();
        Self { flag, value }
    }

    pub fn flag(&self) -> (r: DestFlag)
        ensures
            r == self.spec_flag(),
    {
        self.flag
    }

    pub fn value(&self) -> (r: &DestAddressValue)
        ensures
            r == self.spec_value(),
    {
        &self.value
    }

    /// Total on-wire size in bytes.
    pub fn length(&self) -> (r: usize)
        requires
            self.wf(),
        ensures
            r == dest_address_enc(self.mirror()).len(),
    {
        1 + self.value.length()
    }

    /// Appends the on-wire form: flag, then value.
    pub fn encode_to(&self, dst: &mut Vec<u8>)
        ensures
            final(dst)@ == old(dst)@ + dest_address_enc(self.mirror()),
    {
        encode_u8_to(self.flag.to_u8(), dst);
        self.value.encode_to(dst);
        assert(final(dst)@ =~= old(dst)@ + dest_address_enc(self.mirror()));
    }

    /// Reads one whole destination address off the front of `src`.
    pub fn decode(src: &[u8]) -> (r: Result<(Self, usize), DecodeError>)
        ensures
            match r {
                Ok((v, n)) => {
                    &&& v.wf()
                    &&& n <= src@.len()
                    &&& spec_decode_dest_address(src@) == Ok::<
                        (DestAddressMirror, usize),
                        DecodeError,
                    >((v.mirror(), n))
                },
                Err(e) => spec_decode_dest_address(src@) == Err::<
                    (DestAddressMirror, usize),
                    DecodeError,
                >(e),
            },
    {
        let (flag_b, _) = match decode_u8(src) {
            Ok(p) => p,
            Err(e) => {
                return Err(DecodeError::integer_decode_error(e));
            },
        };
        let rem = slice_skip(src, 1);
        let flag = DestFlag::from_u8(flag_b);
        let (value, n) = match DestAddressValue::decode(flag, rem) {
            Ok(p) => p,
            Err(e) => {
                return Err(e);
            },
        };
        let src_len: usize = src.len();
        proof {
            assert(n <= src_len - 1);
        }
        Ok((Self { flag, value }, 1 + n))
    }
}

} // verus!
