//! Destination addresses for multi-recipient submission.
//!
//! A destination is either an SME address (type of number, numbering plan,
//! address string) or the name of a distribution list kept on the MC; a
//! one-byte flag ahead of the value says which. The wire-level
//! specifications live here; [`owned`] and [`borrowed`] give the value types
//! in the two ownership disciplines over the same specifications.

pub mod borrowed;
pub mod owned;

use vstd::prelude::*;

use crate::codec::sdrop;
use crate::codec::spec_decode_u8;
use crate::codec::lemma_u8_round_trip;
use crate::codec::lemma_add_then_skip;
use crate::errors::DecodeError;
use crate::errors::DecodeErrorKind;
use crate::strings::c_octet_wf;
use crate::strings::spec_decode_c_octet;
use crate::strings::lemma_c_octet_round_trip;
use crate::values::DestFlag;
use crate::values::Npi;
use crate::values::Ton;

verus! {

/// The field values of an SME-format destination as they stand on the wire.
pub struct SmeAddressMirror {
    pub dest_addr_ton: Ton,
    pub dest_addr_npi: Npi,
    pub destination_addr: Seq<u8>,
}

/// The value part of a destination address, at the wire level.
pub enum DestAddressValueMirror {
    SmeAddress(SmeAddressMirror),
    DistributionListName(Seq<u8>),
}

/// A whole destination address, flag and value, at the wire level.
pub struct DestAddressMirror {
    pub flag: DestFlag,
    pub value: DestAddressValueMirror,
}

pub open spec fn sme_mirror_wf(m: SmeAddressMirror) -> bool {
    &&& m.dest_addr_ton.wf()
    &&& m.dest_addr_npi.wf()
    &&& c_octet_wf(m.destination_addr, 1, 21)
}

/// The on-wire form of an SME-format destination.
pub open spec fn sme_enc(m: SmeAddressMirror) -> Seq<u8> {
    seq![m.dest_addr_ton.spec_to_u8()] + seq![m.dest_addr_npi.spec_to_u8()] + m.destination_addr
}

/// What decoding an SME-format destination from `s` yields.
pub open spec fn spec_decode_sme(s: Seq<u8>) -> Result<(SmeAddressMirror, usize), DecodeError> {
    match spec_decode_u8(s) {
        Err(e) => Err(DecodeError::spec_integer(e)),
        Ok((ton_b, _)) => match spec_decode_u8(sdrop(s, 1)) {
            Err(e) => Err(DecodeError::spec_integer(e)),
            Ok((npi_b, _)) => match spec_decode_c_octet(sdrop(s, 2), 1, 21) {
                Err(e) => Err(DecodeError::spec_c_octet(e)),
                Ok((addr, n)) => Ok(
                    (
                        SmeAddressMirror {
                            dest_addr_ton: Ton::spec_from_u8(ton_b),
                            dest_addr_npi: Npi::spec_from_u8(npi_b),
                            destination_addr: addr,
                        },
                        (2 + n) as usize,
                    ),
                ),
            },
        },
    }
}

/// What decoding a distribution-list name from `s` yields.
pub open spec fn spec_decode_dln(s: Seq<u8>) -> Result<(Seq<u8>, usize), DecodeError> {
    match spec_decode_c_octet(s, 1, 21) {
        Err(e) => Err(DecodeError::spec_c_octet(e)),
        Ok((name, n)) => Ok((name, n)),
    }
}

pub open spec fn dest_value_mirror_wf(v: DestAddressValueMirror) -> bool {
    match v {
        DestAddressValueMirror::SmeAddress(m) => sme_mirror_wf(m),
        DestAddressValueMirror::DistributionListName(name) => c_octet_wf(name, 1, 21),
    }
}

/// The flag a destination value is discriminated by.
pub open spec fn dest_value_flag(v: DestAddressValueMirror) -> DestFlag {
    match v {
        DestAddressValueMirror::SmeAddress(_) => DestFlag::SmeAddress,
        DestAddressValueMirror::DistributionListName(_) => DestFlag::DistributionListName,
    }
}

/// The on-wire form of a destination value, the flag not included.
pub open spec fn dest_value_enc(v: DestAddressValueMirror) -> Seq<u8> {
    match v {
        DestAddressValueMirror::SmeAddress(m) => sme_enc(m),
        DestAddressValueMirror::DistributionListName(name) => name,
    }
}

/// What decoding a destination value under an already-read flag yields: the
/// typed value for the two defined flags, `UnsupportedKey` for any other.
pub open spec fn spec_decode_dest_value(key: DestFlag, s: Seq<u8>) -> Result<
    (DestAddressValueMirror, usize),
    DecodeError,
> {
    match key {
        DestFlag::SmeAddress => match spec_decode_sme(s) {
            Err(e) => Err(e),
            Ok((m, n)) => Ok((DestAddressValueMirror::SmeAddress(m), n)),
        },
        DestFlag::DistributionListName => match spec_decode_dln(s) {
            Err(e) => Err(e),
            Ok((name, n)) => Ok((DestAddressValueMirror::DistributionListName(name), n)),
        },
        DestFlag::Other(f) => Err(
            DecodeError { kind: DecodeErrorKind::UnsupportedKey { key: f as u32 } },
        ),
    }
}

pub open spec fn dest_address_mirror_wf(m: DestAddressMirror) -> bool {
    &&& m.flag == dest_value_flag(m.value)
    &&& dest_value_mirror_wf(m.value)
}

/// The on-wire form of a whole destination address: flag, then value.
pub open spec fn dest_address_enc(m: DestAddressMirror) -> Seq<u8> {
    seq![m.flag.spec_to_u8()] + dest_value_enc(m.value)
}

/// What decoding a whole destination address from `s` yields.
pub open spec fn spec_decode_dest_address(s: Seq<u8>) -> Result<
    (DestAddressMirror, usize),
    DecodeError,
> {
    match spec_decode_u8(s) {
        Err(e) => Err(DecodeError::spec_integer(e)),
        Ok((flag_b, _)) => match spec_decode_dest_value(DestFlag::spec_from_u8(flag_b), sdrop(s, 1)) {
            Err(e) => Err(e),
            Ok((v, n)) => Ok(
                (DestAddressMirror { flag: DestFlag::spec_from_u8(flag_b), value: v }, (1 + n) as usize),
            ),
        },
    }
}

/// Round trip of an SME-format destination.
pub proof fn lemma_sme_round_trip(m: SmeAddressMirror, rest: Seq<u8>)
    requires
        sme_mirror_wf(m),
    ensures
        spec_decode_sme(sme_enc(m) + rest) == Ok::<(SmeAddressMirror, usize), DecodeError>(
            (m, sme_enc(m).len() as usize),
        ),
{
    let t2 = m.destination_addr + rest;
    let t1 = seq![m.dest_addr_npi.spec_to_u8()] + t2;
    let s = sme_enc(m) + rest;
    assert(s =~= seq![m.dest_addr_ton.spec_to_u8()] + t1);
    lemma_u8_round_trip(m.dest_addr_ton.spec_to_u8(), t1);
    lemma_add_then_skip(seq![m.dest_addr_ton.spec_to_u8()], t1);
    crate::values::lemma_ton_round_trip(m.dest_addr_ton);
    lemma_u8_round_trip(m.dest_addr_npi.spec_to_u8(), t2);
    lemma_add_then_skip(seq![m.dest_addr_npi.spec_to_u8()], t2);
    crate::values::lemma_npi_round_trip(m.dest_addr_npi);
    assert(sdrop(t1, 1) == t2);
    assert(sdrop(s, 2) == t2) by {
        assert(sdrop(sdrop(s, 1), 1) =~= sdrop(s, 2));
    }
    lemma_c_octet_round_trip(m.destination_addr, rest, 1, 21);
}

/// Round trip of a destination value under its own flag.
pub proof fn lemma_dest_value_round_trip(v: DestAddressValueMirror, rest: Seq<u8>)
    requires
        dest_value_mirror_wf(v),
    ensures
        spec_decode_dest_value(dest_value_flag(v), dest_value_enc(v) + rest) == Ok::<
            (DestAddressValueMirror, usize),
            DecodeError,
        >((v, dest_value_enc(v).len() as usize)),
{
    match v {
        DestAddressValueMirror::SmeAddress(m) => {
            lemma_sme_round_trip(m, rest);
        },
        DestAddressValueMirror::DistributionListName(name) => {
            lemma_c_octet_round_trip(name, rest, 1, 21);
        },
    }
}

/// Round trip of a whole destination address.
pub proof fn lemma_dest_address_round_trip(m: DestAddressMirror, rest: Seq<u8>)
    requires
        dest_address_mirror_wf(m),
    ensures
        spec_decode_dest_address(dest_address_enc(m) + rest) == Ok::<
            (DestAddressMirror, usize),
            DecodeError,
        >((m, dest_address_enc(m).len() as usize)),
{
    let t1 = dest_value_enc(m.value) + rest;
    let s = dest_address_enc(m) + rest;
    assert(s =~= seq![m.flag.spec_to_u8()] + t1);
    lemma_u8_round_trip(m.flag.spec_to_u8(), t1);
    lemma_add_then_skip(seq![m.flag.spec_to_u8()], t1);
    crate::values::lemma_dest_flag_round_trip(m.flag);
    lemma_dest_value_round_trip(m.value, rest);
}

} // verus!
