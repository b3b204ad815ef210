//! Scalar SMPP values carried as single bytes on the wire.
//!
//! Each enum keeps a catch-all variant for the byte values the registry does
//! not name, so every byte decodes and re-encodes losslessly. Well-formedness
//! rules the catch-all out for the named values, which makes the byte
//! mapping a bijection on well-formed values.

use vstd::prelude::*;

verus! {

/// Type of Number of an SME address.
#[derive(Debug, Copy, Clone, PartialEq, Eq, Hash, Structural)]
pub enum Ton {
    Unknown,
    International,
    National,
    NetworkSpecific,
    SubscriberNumber,
    Alphanumeric,
    Abbreviated,
    Other(u8),
}

impl Ton {
    /// The byte this value is written as.
    pub open spec fn spec_to_u8(self) -> u8 {
        match self {
            Ton::Unknown => 0,
            Ton::International => 1,
            Ton::National => 2,
            Ton::NetworkSpecific => 3,
            Ton::SubscriberNumber => 4,
            Ton::Alphanumeric => 5,
            Ton::Abbreviated => 6,
            Ton::Other(b) => b,
        }
    }

    /// The value a byte is read as.
    pub open spec fn spec_from_u8(b: u8) -> Ton {
        if b == 0 {
            Ton::Unknown
        } else if b == 1 {
            Ton::International
        } else if b == 2 {
            Ton::National
        } else if b == 3 {
            Ton::NetworkSpecific
        } else if b == 4 {
            Ton::SubscriberNumber
        } else if b == 5 {
            Ton::Alphanumeric
        } else if b == 6 {
            Ton::Abbreviated
        } else {
            Ton::Other(b)
        }
    }

    /// The catch-all variant never shadows a named value.
    pub open spec fn wf(self) -> bool {
        self matches Ton::Other(b) ==> b > 6
    }

    pub fn to_u8(self) -> (r: u8)
        ensures
            r == self.spec_to_u8(),
    {
        match self {
            Ton::Unknown => 0,
            Ton::International => 1,
            Ton::National => 2,
            Ton::NetworkSpecific => 3,
            Ton::SubscriberNumber => 4,
            Ton::Alphanumeric => 5,
            Ton::Abbreviated => 6,
            Ton::Other(b) => b,
        }
    }

    pub fn from_u8(b: u8) -> (r: Ton)
        ensures
            r == Ton::spec_from_u8(b),
            r.wf(),
            r.spec_to_u8() == b,
    {
        match b {
            0 => Ton::Unknown,
            1 => Ton::International,
            2 => Ton::National,
            3 => Ton::NetworkSpecific,
            4 => Ton::SubscriberNumber,
            5 => Ton::Alphanumeric,
            6 => Ton::Abbreviated,
            _ => Ton::Other(b),
        }
    }
}

/// Reading a well-formed `Ton` back from its byte yields the same value.
pub proof fn lemma_ton_round_trip(t: Ton)
    requires
        t.wf(),
    ensures
        Ton::spec_from_u8(t.spec_to_u8()) == t,
{
}

/// Numbering Plan Indicator of an SME address.
#[derive(Debug, Copy, Clone, PartialEq, Eq, Hash, Structural)]
pub enum Npi {
    Unknown,
    Isdn,
    Data,
    Telex,
    LandMobile,
    National,
    Private,
    Ermes,
    Internet,
    WapClientId,
    Other(u8),
}

impl Npi {
    /// The byte this value is written as.
    pub open spec fn spec_to_u8(self) -> u8 {
        match self {
            Npi::Unknown => 0,
            Npi::Isdn => 1,
            Npi::Data => 3,
            Npi::Telex => 4,
            Npi::LandMobile => 6,
            Npi::National => 8,
            Npi::Private => 9,
            Npi::Ermes => 10,
            Npi::Internet => 14,
            Npi::WapClientId => 18,
            Npi::Other(b) => b,
        }
    }

    /// The value a byte is read as.
    pub open spec fn spec_from_u8(b: u8) -> Npi {
        if b == 0 {
            Npi::Unknown
        } else if b == 1 {
            Npi::Isdn
        } else if b == 3 {
            Npi::Data
        } else if b == 4 {
            Npi::Telex
        } else if b == 6 {
            Npi::LandMobile
        } else if b == 8 {
            Npi::National
        } else if b == 9 {
            Npi::Private
        } else if b == 10 {
            Npi::Ermes
        } else if b == 14 {
            Npi::Internet
        } else if b == 18 {
            Npi::WapClientId
        } else {
            Npi::Other(b)
        }
    }

    /// The catch-all variant never shadows a named value.
    pub open spec fn wf(self) -> bool {
        self matches Npi::Other(b) ==> (b != 0 && b != 1 && b != 3 && b != 4 && b != 6 && b != 8
            && b != 9 && b != 10 && b != 14 && b != 18)
    }

    pub fn to_u8(self) -> (r: u8)
        ensures
            r == self.spec_to_u8(),
    {
        match self {
            Npi::Unknown => 0,
            Npi::Isdn => 1,
            Npi::Data => 3,
            Npi::Telex => 4,
            Npi::LandMobile => 6,
            Npi::National => 8,
            Npi::Private => 9,
            Npi::Ermes => 10,
            Npi::Internet => 14,
            Npi::WapClientId => 18,
            Npi::Other(b) => b,
        }
    }

    pub fn from_u8(b: u8) -> (r: Npi)
        ensures
            r == Npi::spec_from_u8(b),
            r.wf(),
            r.spec_to_u8() == b,
    {
        match b {
            0 => Npi::Unknown,
            1 => Npi::Isdn,
            3 => Npi::Data,
            4 => Npi::Telex,
            6 => Npi::LandMobile,
            8 => Npi::National,
            9 => Npi::Private,
            10 => Npi::Ermes,
            14 => Npi::Internet,
            18 => Npi::WapClientId,
            _ => Npi::Other(b),
        }
    }
}

/// Reading a well-formed `Npi` back from its byte yields the same value.
pub proof fn lemma_npi_round_trip(n: Npi)
    requires
        n.wf(),
    ensures
        Npi::spec_from_u8(n.spec_to_u8()) == n,
{
}

/// Delivery-receipt and acknowledgement request flags, carried as one byte.
#[derive(Debug, Copy, Clone, PartialEq, Eq, Hash, Structural)]
pub struct RegisteredDelivery {
    pub value: u8,
}

impl RegisteredDelivery {
    pub fn new(value: u8) -> (r: Self)
        ensures
            r.value == value,
    {
        Self { value }
    }

    /// No receipt, no acknowledgement, no notification requested.
    pub fn none() -> (r: Self)
        ensures
            r.value == 0,
    {
        Self { value: 0 }
    }
}

impl Default for RegisteredDelivery {
    fn default() -> (r: Self)
        ensures
            r.value == 0,
    {
        Self { value: 0 }
    }
}

/// SMPP interface version, carried as one byte.
#[derive(Debug, Copy, Clone, PartialEq, Eq, Hash, Structural)]
pub struct InterfaceVersion {
    pub value: u8,
}

impl InterfaceVersion {
    pub fn new(value: u8) -> (r: Self)
        ensures
            r.value == value,
    {
        Self { value }
    }

    /// The version this library implements.
    pub fn smpp_5_0() -> (r: Self)
        ensures
            r.value == 0x50,
    {
        Self { value: 0x50 }
    }
}

impl Default for InterfaceVersion {
    fn default() -> (r: Self)
        ensures
            r.value == 0x50,
    {
        Self { value: 0x50 }
    }
}

/// Discriminator of a destination address: SME address or distribution list.
#[derive(Debug, Copy, Clone, PartialEq, Eq, Hash, Structural)]
pub enum DestFlag {
    SmeAddress,
    DistributionListName,
    Other(u8),
}

impl DestFlag {
    /// The byte this value is written as.
    pub open spec fn spec_to_u8(self) -> u8 {
        match self {
            DestFlag::SmeAddress => 1,
            DestFlag::DistributionListName => 2,
            DestFlag::Other(b) => b,
        }
    }

    /// The value a byte is read as.
    pub open spec fn spec_from_u8(b: u8) -> DestFlag {
        if b == 1 {
            DestFlag::SmeAddress
        } else if b == 2 {
            DestFlag::DistributionListName
        } else {
            DestFlag::Other(b)
        }
    }

    /// The catch-all variant never shadows a named value.
    pub open spec fn wf(self) -> bool {
        self matches DestFlag::Other(b) ==> (b != 1 && b != 2)
    }

    pub fn to_u8(self) -> (r: u8)
        ensures
            r == self.spec_to_u8(),
    {
        match self {
            DestFlag::SmeAddress => 1,
            DestFlag::DistributionListName => 2,
            DestFlag::Other(b) => b,
        }
    }

    pub fn from_u8(b: u8) -> (r: DestFlag)
        ensures
            r == DestFlag::spec_from_u8(b),
            r.wf(),
            r.spec_to_u8() == b,
    {
        match b {
            1 => DestFlag::SmeAddress,
            2 => DestFlag::DistributionListName,
            _ => DestFlag::Other(b),
        }
    }
}

/// Reading a well-formed `DestFlag` back from its byte yields the same value.
pub proof fn lemma_dest_flag_round_trip(f: DestFlag)
    requires
        f.wf(),
    ensures
        DestFlag::spec_from_u8(f.spec_to_u8()) == f,
{
}

} // verus!
