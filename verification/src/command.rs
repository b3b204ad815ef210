//! The wire-level command envelope and the frame boundary.
//!
//! A frame is a 4-byte big-endian total length, the four bytes included,
//! followed by a 16-byte header (command id, command status, sequence
//! number) and the body the id announces. The streaming decoder works
//! against a growable buffer: it reports how many bytes a complete frame
//! consumed, asks for more bytes when the buffer holds less than one frame,
//! and rejects lengths outside `[16, max]`.

use vstd::prelude::*;

use crate::codec::decode_u32;
use crate::codec::encode_u32_to;
use crate::codec::sdrop;
use crate::codec::slice_skip;
use crate::codec::spec_decode_u32;
use crate::codec::u32_be_bytes;
use crate::errors::DecodeError;
use crate::pdus::bind::Bind;
use crate::pdus::bind::BindMirror;
use crate::pdus::bind::BindResp;
use crate::pdus::bind::bind_enc;
use crate::pdus::bind::spec_decode_bind;
use crate::pdus::replace_sm::ReplaceSm;
use crate::pdus::replace_sm::ReplaceSmMirror;
use crate::pdus::replace_sm::replace_sm_enc;
use crate::pdus::replace_sm::spec_decode_replace_sm;
use crate::pdus::submit_sm::SubmitSm;
use crate::pdus::submit_sm::SubmitSmMirror;
use crate::pdus::submit_sm::SubmitSmResp;
use crate::pdus::submit_sm::submit_sm_enc;
use crate::pdus::submit_sm::spec_decode_submit_sm;
use crate::strings::AnyOctetString;
use crate::tlv::TlvTag;

verus! {

/// The command status of a successful operation.
pub const STATUS_OK: u32 = 0;

/// Identifies the operation a PDU carries. Ids without a typed body in
/// this registry are kept under the catch-all variant.
#[derive(Debug, Copy, Clone, PartialEq, Eq, Hash, Structural)]
pub enum CommandId {
    BindReceiver,
    BindTransmitter,
    BindTransceiver,
    BindReceiverResp,
    BindTransmitterResp,
    BindTransceiverResp,
    SubmitSm,
    SubmitSmResp,
    ReplaceSm,
    ReplaceSmResp,
    Unbind,
    UnbindResp,
    EnquireLink,
    EnquireLinkResp,
    GenericNack,
    Other(u32),
}

impl CommandId {
    /// The four-byte code this id is written as.
    pub open spec fn spec_to_u32(self) -> u32 {
        match self {
            CommandId::BindReceiver => 0x00000001,
            CommandId::BindTransmitter => 0x00000002,
            CommandId::BindTransceiver => 0x00000009,
            CommandId::BindReceiverResp => 0x80000001,
            CommandId::BindTransmitterResp => 0x80000002,
            CommandId::BindTransceiverResp => 0x80000009,
            CommandId::SubmitSm => 0x00000004,
            CommandId::SubmitSmResp => 0x80000004,
            CommandId::ReplaceSm => 0x00000007,
            CommandId::ReplaceSmResp => 0x80000007,
            CommandId::Unbind => 0x00000006,
            CommandId::UnbindResp => 0x80000006,
            CommandId::EnquireLink => 0x00000015,
            CommandId::EnquireLinkResp => 0x80000015,
            CommandId::GenericNack => 0x80000000,
            CommandId::Other(c) => c,
        }
    }

    /// Whether a code is one of the ids of this registry.
    pub open spec fn spec_known(c: u32) -> bool {
        ||| c == 0x00000001
        ||| c == 0x00000002
        ||| c == 0x00000009
        ||| c == 0x80000001
        ||| c == 0x80000002
        ||| c == 0x80000009
        ||| c == 0x00000004
        ||| c == 0x80000004
        ||| c == 0x00000007
        ||| c == 0x80000007
        ||| c == 0x00000006
        ||| c == 0x80000006
        ||| c == 0x00000015
        ||| c == 0x80000015
        ||| c == 0x80000000
    }

    /// The id a four-byte code is read as.
    pub open spec fn spec_from_u32(c: u32) -> CommandId {
        if c == 0x00000001 {
            CommandId::BindReceiver
        } else if c == 0x00000002 {
            CommandId::BindTransmitter
        } else if c == 0x00000009 {
            CommandId::BindTransceiver
        } else if c == 0x80000001 {
            CommandId::BindReceiverResp
        } else if c == 0x80000002 {
            CommandId::BindTransmitterResp
        } else if c == 0x80000009 {
            CommandId::BindTransceiverResp
        } else if c == 0x00000004 {
            CommandId::SubmitSm
        } else if c == 0x80000004 {
            CommandId::SubmitSmResp
        } else if c == 0x00000007 {
            CommandId::ReplaceSm
        } else if c == 0x80000007 {
            CommandId::ReplaceSmResp
        } else if c == 0x00000006 {
            CommandId::Unbind
        } else if c == 0x80000006 {
            CommandId::UnbindResp
        } else if c == 0x00000015 {
            CommandId::EnquireLink
        } else if c == 0x80000015 {
            CommandId::EnquireLinkResp
        } else if c == 0x80000000 {
            CommandId::GenericNack
        } else {
            CommandId::Other(c)
        }
    }

    /// The catch-all variant never shadows a registered id.
    pub open spec fn wf(self) -> bool {
        self matches CommandId::Other(c) ==> !CommandId::spec_known(c)
    }

    pub fn to_u32(self) -> (r: u32)
        ensures
            r == self.spec_to_u32(),
    {
        match self {
            CommandId::BindReceiver => 0x00000001,
            CommandId::BindTransmitter => 0x00000002,
            CommandId::BindTransceiver => 0x00000009,
            CommandId::BindReceiverResp => 0x80000001,
            CommandId::BindTransmitterResp => 0x80000002,
            CommandId::BindTransceiverResp => 0x80000009,
            CommandId::SubmitSm => 0x00000004,
            CommandId::SubmitSmResp => 0x80000004,
            CommandId::ReplaceSm => 0x00000007,
            CommandId::ReplaceSmResp => 0x80000007,
            CommandId::Unbind => 0x00000006,
            CommandId::UnbindResp => 0x80000006,
            CommandId::EnquireLink => 0x00000015,
            CommandId::EnquireLinkResp => 0x80000015,
            CommandId::GenericNack => 0x80000000,
            CommandId::Other(c) => c,
        }
    }

    pub fn from_u32(c: u32) -> (r: CommandId)
        ensures
            r == CommandId::spec_from_u32(c),
            r.wf(),
            r.spec_to_u32() == c,
    {
        match c {
            0x00000001 => CommandId::BindReceiver,
            0x00000002 => CommandId::BindTransmitter,
            0x00000009 => CommandId::BindTransceiver,
            0x80000001 => CommandId::BindReceiverResp,
            0x80000002 => CommandId::BindTransmitterResp,
            0x80000009 => CommandId::BindTransceiverResp,
            0x00000004 => CommandId::SubmitSm,
            0x80000004 => CommandId::SubmitSmResp,
            0x00000007 => CommandId::ReplaceSm,
            0x80000007 => CommandId::ReplaceSmResp,
            0x00000006 => CommandId::Unbind,
            0x80000006 => CommandId::UnbindResp,
            0x00000015 => CommandId::EnquireLink,
            0x80000015 => CommandId::EnquireLinkResp,
            0x80000000 => CommandId::GenericNack,
            _ => CommandId::Other(c),
        }
    }
}

/// A PDU body: one variant per operation this registry types, a unit
/// variant for the bodyless operations, and raw bytes for unknown ids.
#[derive(Debug, Clone, PartialEq, Eq, Hash)]
pub enum Pdu {
    BindReceiver(Bind),
    BindTransmitter(Bind),
    BindTransceiver(Bind),
    BindReceiverResp(BindResp),
    BindTransmitterResp(BindResp),
    BindTransceiverResp(BindResp),
    SubmitSm(SubmitSm),
    SubmitSmResp(SubmitSmResp),
    ReplaceSm(ReplaceSm),
    ReplaceSmResp,
    Unbind,
    UnbindResp,
    EnquireLink,
    EnquireLinkResp,
    GenericNack,
    Other(AnyOctetString),
}

/// The wire-level view of a PDU body.
pub enum PduMirror {
    BindReceiver(BindMirror),
    BindTransmitter(BindMirror),
    BindTransceiver(BindMirror),
    BindReceiverResp((Seq<u8>, Option<(TlvTag, u16, Seq<u8>)>)),
    BindTransmitterResp((Seq<u8>, Option<(TlvTag, u16, Seq<u8>)>)),
    BindTransceiverResp((Seq<u8>, Option<(TlvTag, u16, Seq<u8>)>)),
    SubmitSm(SubmitSmMirror),
    SubmitSmResp((Seq<u8>, Seq<(TlvTag, u16, Seq<u8>)>)),
    ReplaceSm(ReplaceSmMirror),
    ReplaceSmResp,
    Unbind,
    UnbindResp,
    EnquireLink,
    EnquireLinkResp,
    GenericNack,
    Other(Seq<u8>),
}

impl Pdu {
    /// Whether this body belongs under the given command id.
    pub open spec fn matches_id(self, id: CommandId) -> bool {
        match self {
            Pdu::BindReceiver(_) => id == CommandId::BindReceiver,
            Pdu::BindTransmitter(_) => id == CommandId::BindTransmitter,
            Pdu::BindTransceiver(_) => id == CommandId::BindTransceiver,
            Pdu::BindReceiverResp(_) => id == CommandId::BindReceiverResp,
            Pdu::BindTransmitterResp(_) => id == CommandId::BindTransmitterResp,
            Pdu::BindTransceiverResp(_) => id == CommandId::BindTransceiverResp,
            Pdu::SubmitSm(_) => id == CommandId::SubmitSm,
            Pdu::SubmitSmResp(_) => id == CommandId::SubmitSmResp,
            Pdu::ReplaceSm(_) => id == CommandId::ReplaceSm,
            Pdu::ReplaceSmResp => id == CommandId::ReplaceSmResp,
            Pdu::Unbind => id == CommandId::Unbind,
            Pdu::UnbindResp => id == CommandId::UnbindResp,
            Pdu::EnquireLink => id == CommandId::EnquireLink,
            Pdu::EnquireLinkResp => id == CommandId::EnquireLinkResp,
            Pdu::GenericNack => id == CommandId::GenericNack,
            Pdu::Other(_) => id matches CommandId::Other(_),
        }
    }

    /// Well-formedness of the body carried.
    pub open spec fn wf(self) -> bool {
        match self {
            Pdu::BindReceiver(b) => b.wf(),
            Pdu::BindTransmitter(b) => b.wf(),
            Pdu::BindTransceiver(b) => b.wf(),
            Pdu::BindReceiverResp(b) => b.wf(),
            Pdu::BindTransmitterResp(b) => b.wf(),
            Pdu::BindTransceiverResp(b) => b.wf(),
            Pdu::SubmitSm(b) => b.wf(),
            Pdu::SubmitSmResp(b) => b.wf(),
            Pdu::ReplaceSm(b) => b.wf(),
            Pdu::ReplaceSmResp => true,
            Pdu::Unbind => true,
            Pdu::UnbindResp => true,
            Pdu::EnquireLink => true,
            Pdu::EnquireLinkResp => true,
            Pdu::GenericNack => true,
            Pdu::Other(_) => true,
        }
    }

    /// The wire-level view of this body.
    pub open spec fn mirror(self) -> PduMirror {
        match self {
            Pdu::BindReceiver(b) => PduMirror::BindReceiver(b.mirror()),
            Pdu::BindTransmitter(b) => PduMirror::BindTransmitter(b.mirror()),
            Pdu::BindTransceiver(b) => PduMirror::BindTransceiver(b.mirror()),
            Pdu::BindReceiverResp(b) => PduMirror::BindReceiverResp(b.mirror()),
            Pdu::BindTransmitterResp(b) => PduMirror::BindTransmitterResp(b.mirror()),
            Pdu::BindTransceiverResp(b) => PduMirror::BindTransceiverResp(b.mirror()),
            Pdu::SubmitSm(b) => PduMirror::SubmitSm(b.mirror()),
            Pdu::SubmitSmResp(b) => PduMirror::SubmitSmResp(b.mirror()),
            Pdu::ReplaceSm(b) => PduMirror::ReplaceSm(b.mirror()),
            Pdu::ReplaceSmResp => PduMirror::ReplaceSmResp,
            Pdu::Unbind => PduMirror::Unbind,
            Pdu::UnbindResp => PduMirror::UnbindResp,
            Pdu::EnquireLink => PduMirror::EnquireLink,
            Pdu::EnquireLinkResp => PduMirror::EnquireLinkResp,
            Pdu::GenericNack => PduMirror::GenericNack,
            Pdu::Other(b) => PduMirror::Other(b@),
        }
    }

    /// The on-wire form of this body.
    pub open spec fn body_enc(self) -> Seq<u8> {
        match self {
            Pdu::BindReceiver(b) => bind_enc(b.mirror()),
            Pdu::BindTransmitter(b) => bind_enc(b.mirror()),
            Pdu::BindTransceiver(b) => bind_enc(b.mirror()),
            Pdu::BindReceiverResp(b) => b.spec_encoded(),
            Pdu::BindTransmitterResp(b) => b.spec_encoded(),
            Pdu::BindTransceiverResp(b) => b.spec_encoded(),
            Pdu::SubmitSm(b) => submit_sm_enc(b.mirror()),
            Pdu::SubmitSmResp(b) => b.spec_encoded(),
            Pdu::ReplaceSm(b) => replace_sm_enc(b.mirror()),
            Pdu::ReplaceSmResp => Seq::<u8>::empty(),
            Pdu::Unbind => Seq::<u8>::empty(),
            Pdu::UnbindResp => Seq::<u8>::empty(),
            Pdu::EnquireLink => Seq::<u8>::empty(),
            Pdu::EnquireLinkResp => Seq::<u8>::empty(),
            Pdu::GenericNack => Seq::<u8>::empty(),
            Pdu::Other(b) => b@,
        }
    }

    /// Appends the on-wire form of this body.
    pub fn encode_to(&self, dst: &mut Vec<u8>)
        ensures
            final(dst)@ == old(dst)@ + self.body_enc(),
    {
        match self {
            Pdu::BindReceiver(b) => b.encode_to(dst),
            Pdu::BindTransmitter(b) => b.encode_to(dst),
            Pdu::BindTransceiver(b) => b.encode_to(dst),
            Pdu::BindReceiverResp(b) => b.encode_to(dst),
            Pdu::BindTransmitterResp(b) => b.encode_to(dst),
            Pdu::BindTransceiverResp(b) => b.encode_to(dst),
            Pdu::SubmitSm(b) => b.encode_to(dst),
            Pdu::SubmitSmResp(b) => b.encode_to(dst),
            Pdu::ReplaceSm(b) => b.encode_to(dst),
            Pdu::ReplaceSmResp => {
                assert(final(dst)@ =~= old(dst)@ + self.body_enc());
            },
            Pdu::Unbind => {
                assert(final(dst)@ =~= old(dst)@ + self.body_enc());
            },
            Pdu::UnbindResp => {
                assert(final(dst)@ =~= old(dst)@ + self.body_enc());
            },
            Pdu::EnquireLink => {
                assert(final(dst)@ =~= old(dst)@ + self.body_enc());
            },
            Pdu::EnquireLinkResp => {
                assert(final(dst)@ =~= old(dst)@ + self.body_enc());
            },
            Pdu::GenericNack => {
                assert(final(dst)@ =~= old(dst)@ + self.body_enc());
            },
            Pdu::Other(b) => b.encode_to(dst),
        }
    }
}

/// What decoding the body of a command under an already-read id yields.
/// Registered ids decode their typed body; unknown ids keep the raw bytes;
/// bodyless ids consume nothing.
pub open spec fn spec_decode_body(id: CommandId, s: Seq<u8>) -> Result<PduMirror, DecodeError> {
    match id {
        CommandId::BindReceiver => match spec_decode_bind(s) {
            Err(e) => Err(e),
            Ok((m, _)) => Ok(PduMirror::BindReceiver(m)),
        },
        CommandId::BindTransmitter => match spec_decode_bind(s) {
            Err(e) => Err(e),
            Ok((m, _)) => Ok(PduMirror::BindTransmitter(m)),
        },
        CommandId::BindTransceiver => match spec_decode_bind(s) {
            Err(e) => Err(e),
            Ok((m, _)) => Ok(PduMirror::BindTransceiver(m)),
        },
        CommandId::BindReceiverResp => match BindResp::spec_decode(s) {
            Err(e) => Err(e),
            Ok((m, _)) => Ok(PduMirror::BindReceiverResp(m)),
        },
        CommandId::BindTransmitterResp => match BindResp::spec_decode(s) {
            Err(e) => Err(e),
            Ok((m, _)) => Ok(PduMirror::BindTransmitterResp(m)),
        },
        CommandId::BindTransceiverResp => match BindResp::spec_decode(s) {
            Err(e) => Err(e),
            Ok((m, _)) => Ok(PduMirror::BindTransceiverResp(m)),
        },
        CommandId::SubmitSm => match spec_decode_submit_sm(s) {
            Err(e) => Err(e),
            Ok((m, _)) => Ok(PduMirror::SubmitSm(m)),
        },
        CommandId::SubmitSmResp => match SubmitSmResp::spec_decode(s) {
            Err(e) => Err(e),
            Ok((m, _)) => Ok(PduMirror::SubmitSmResp(m)),
        },
        CommandId::ReplaceSm => match spec_decode_replace_sm(s) {
            Err(e) => Err(e),
            Ok((m, _)) => Ok(PduMirror::ReplaceSm(m)),
        },
        CommandId::ReplaceSmResp => Ok(PduMirror::ReplaceSmResp),
        CommandId::Unbind => Ok(PduMirror::Unbind),
        CommandId::UnbindResp => Ok(PduMirror::UnbindResp),
        CommandId::EnquireLink => Ok(PduMirror::EnquireLink),
        CommandId::EnquireLinkResp => Ok(PduMirror::EnquireLinkResp),
        CommandId::GenericNack => Ok(PduMirror::GenericNack),
        CommandId::Other(_) => Ok(PduMirror::Other(s)),
    }
}

/// Reads the body of a command under an already-read id.
pub fn decode_body(id: CommandId, src: &[u8]) -> (r: Result<Pdu, DecodeError>)
    ensures
        match r {
            Ok(p) => {
                &&& p.wf()
                &&& p.matches_id(id)
                &&& spec_decode_body(id, src@) == Ok::<PduMirror, DecodeError>(p.mirror())
            },
            Err(e) => spec_decode_body(id, src@) == Err::<PduMirror, DecodeError>(e),
        },
{
    match id {
        CommandId::BindReceiver => match Bind::decode(src) {
            Ok((b, _)) => Ok(Pdu::BindReceiver(b)),
            Err(e) => Err(e),
        },
        CommandId::BindTransmitter => match Bind::decode(src) {
            Ok((b, _)) => Ok(Pdu::BindTransmitter(b)),
            Err(e) => Err(e),
        },
        CommandId::BindTransceiver => match Bind::decode(src) {
            Ok((b, _)) => Ok(Pdu::BindTransceiver(b)),
            Err(e) => Err(e),
        },
        CommandId::BindReceiverResp => match BindResp::decode(src) {
            Ok((b, _)) => Ok(Pdu::BindReceiverResp(b)),
            Err(e) => Err(e),
        },
        CommandId::BindTransmitterResp => match BindResp::decode(src) {
            Ok((b, _)) => Ok(Pdu::BindTransmitterResp(b)),
            Err(e) => Err(e),
        },
        CommandId::BindTransceiverResp => match BindResp::decode(src) {
            Ok((b, _)) => Ok(Pdu::BindTransceiverResp(b)),
            Err(e) => Err(e),
        },
        CommandId::SubmitSm => match SubmitSm::decode(src) {
            Ok((b, _)) => Ok(Pdu::SubmitSm(b)),
            Err(e) => Err(e),
        },
        CommandId::SubmitSmResp => match SubmitSmResp::decode(src) {
            Ok((b, _)) => Ok(Pdu::SubmitSmResp(b)),
            Err(e) => Err(e),
        },
        CommandId::ReplaceSm => match ReplaceSm::decode(src) {
            Ok((b, _)) => Ok(Pdu::ReplaceSm(b)),
            Err(e) => Err(e),
        },
        CommandId::ReplaceSmResp => Ok(Pdu::ReplaceSmResp),
        CommandId::Unbind => Ok(Pdu::Unbind),
        CommandId::UnbindResp => Ok(Pdu::UnbindResp),
        CommandId::EnquireLink => Ok(Pdu::EnquireLink),
        CommandId::EnquireLinkResp => Ok(Pdu::EnquireLinkResp),
        CommandId::GenericNack => Ok(Pdu::GenericNack),
        CommandId::Other(_) => {
            let bytes = crate::codec::slice_prefix_to_vec(src, src.len());
            proof {
                assert(src@.subrange(0, src@.len() as int) =~= src@);
            }
            Ok(Pdu::Other(AnyOctetString::new(bytes)))
        },
    }
}

/// A single wire-level PDU envelope: command id, command status, sequence
/// number, and the body the id announces. The id always matches the body.
#[derive(Debug, Clone, PartialEq, Eq, Hash)]
pub struct Command {
    id: CommandId,
    status: u32,
    sequence_number: u32,
    pdu: Option<Pdu>,
}

/// The wire-level view of a whole command.
pub struct CommandMirror {
    pub id: CommandId,
    pub status: u32,
    pub sequence_number: u32,
    pub body: PduMirror,
}

impl Command {
    /// Spec-level accessors.
    pub closed spec fn spec_id(self) -> CommandId {
        self.id
    }

    pub closed spec fn spec_status(self) -> u32 {
        self.status
    }

    pub closed spec fn spec_sequence_number(self) -> u32 {
        self.sequence_number
    }

    pub closed spec fn spec_pdu(self) -> Option<Pdu> {
        self.pdu
    }

    /// The type's invariant: the id is well formed and matches the body.
    pub open spec fn wf(self) -> bool {
        &&& self.spec_id().wf()
        &&& match self.spec_pdu() {
            Some(p) => p.wf() && p.matches_id(self.spec_id()),
            None => true,
        }
    }

    /// The on-wire form of the body, empty when none is present.
    pub open spec fn body_enc(self) -> Seq<u8> {
        match self.spec_pdu() {
            Some(p) => p.body_enc(),
            None => Seq::<u8>::empty(),
        }
    }

    /// Builds a command around a body, the id taken from the caller; the
    /// body must belong under that id.
    pub fn new(id: CommandId, status: u32, sequence_number: u32, pdu: Pdu) -> (r: Self)
        requires
            pdu.matches_id(id),
        ensures
            r.spec_id() == id,
            r.spec_status() == status,
            r.spec_sequence_number() == sequence_number,
            r.spec_pdu() == Some(pdu),
            id.wf() && pdu.wf() ==> r.wf(),
    {
        Self { id, status, sequence_number, pdu: Some(pdu) }
    }

    /// Builds a command around a body, deriving the id from the body's
    /// own operation; absent for a raw body, whose id only the wire knows.
    pub fn from_body(status: u32, sequence_number: u32, pdu: Pdu) -> (r: Option<Self>)
        ensures
            match r {
                Some(c) => {
                    &&& c.spec_status() == status
                    &&& c.spec_sequence_number() == sequence_number
                    &&& c.spec_pdu() == Some(pdu)
                    &&& pdu.matches_id(c.spec_id())
                    &&& (pdu.wf() ==> c.wf())
                },
                None => pdu matches Pdu::Other(_),
            },
    {
        let id = match &pdu {
            Pdu::BindReceiver(_) => CommandId::BindReceiver,
            Pdu::BindTransmitter(_) => CommandId::BindTransmitter,
            Pdu::BindTransceiver(_) => CommandId::BindTransceiver,
            Pdu::BindReceiverResp(_) => CommandId::BindReceiverResp,
            Pdu::BindTransmitterResp(_) => CommandId::BindTransmitterResp,
            Pdu::BindTransceiverResp(_) => CommandId::BindTransceiverResp,
            Pdu::SubmitSm(_) => CommandId::SubmitSm,
            Pdu::SubmitSmResp(_) => CommandId::SubmitSmResp,
            Pdu::ReplaceSm(_) => CommandId::ReplaceSm,
            Pdu::ReplaceSmResp => CommandId::ReplaceSmResp,
            Pdu::Unbind => CommandId::Unbind,
            Pdu::UnbindResp => CommandId::UnbindResp,
            Pdu::EnquireLink => CommandId::EnquireLink,
            Pdu::EnquireLinkResp => CommandId::EnquireLinkResp,
            Pdu::GenericNack => CommandId::GenericNack,
            Pdu::Other(_) => {
                return None;
            },
        };
        Some(Self { id, status, sequence_number, pdu: Some(pdu) })
    }

    pub fn id(&self) -> (r: CommandId)
        ensures
            r == self.spec_id(),
    {
        self.id
    }

    pub fn status(&self) -> (r: u32)
        ensures
            r == self.spec_status(),
    {
        self.status
    }

    pub fn sequence_number(&self) -> (r: u32)
        ensures
            r == self.spec_sequence_number(),
    {
        self.sequence_number
    }

    pub fn pdu(&self) -> (r: Option<&Pdu>)
        ensures
            match r {
                Some(p) => self.spec_pdu() == Some(*p),
                None => self.spec_pdu() is None,
            },
    {
        match &self.pdu {
            Some(p) => Some(p),
            None => None,
        }
    }

    /// Takes the command apart: id, status, sequence number, body.
    pub fn into_parts(self) -> (r: (CommandId, u32, u32, Option<Pdu>))
        ensures
            r == (self.spec_id(), self.spec_status(), self.spec_sequence_number(), self.spec_pdu()),
    {
        (self.id, self.status, self.sequence_number, self.pdu)
    }

    /// The wire-level view; a missing body stands as an empty raw body.
    pub open spec fn mirror(self) -> CommandMirror {
        CommandMirror {
            id: self.spec_id(),
            status: self.spec_status(),
            sequence_number: self.spec_sequence_number(),
            body: match self.spec_pdu() {
                Some(p) => p.mirror(),
                None => PduMirror::Other(Seq::<u8>::empty()),
            },
        }
    }

    /// The whole frame: the length prefix, the 16-byte header, the body.
    pub open spec fn frame_enc(self) -> Seq<u8> {
        u32_be_bytes((16 + self.body_enc().len()) as u32) + u32_be_bytes(self.spec_id().spec_to_u32())
            + u32_be_bytes(self.spec_status()) + u32_be_bytes(self.spec_sequence_number())
            + self.body_enc()
    }

    /// Appends the whole frame if its length fits the four-byte prefix,
    /// and reports whether it did; an oversize command leaves the buffer
    /// untouched. For callers that cannot establish the length bound ahead
    /// of the call.
    pub fn try_encode_frame_to(&self, dst: &mut Vec<u8>) -> (r: bool)
        ensures
            r <==> 16 + self.body_enc().len() <= u32::MAX,
            r ==> final(dst)@ == old(dst)@ + self.frame_enc(),
            !r ==> final(dst)@ == old(dst)@,
    {
        let mut body: Vec<u8> = Vec::new();
        match &self.pdu {
            Some(p) => p.encode_to(&mut body),
            None => (),
        }
        if body.len() > (u32::MAX - 16) as usize {
            return false;
        }
        encode_u32_to(16 + body.len() as u32, dst);
        encode_u32_to(self.id.to_u32(), dst);
        encode_u32_to(self.status, dst);
        encode_u32_to(self.sequence_number, dst);
        crate::codec::push_all(dst, body.as_slice());
        assert(final(dst)@ =~= old(dst)@ + self.frame_enc());
        true
    }

    /// Appends the whole frame, length prefix included.
    pub fn encode_frame_to(&self, dst: &mut Vec<u8>)
        requires
            16 + self.body_enc().len() <= u32::MAX,
        ensures
            final(dst)@ == old(dst)@ + self.frame_enc(),
            self.frame_enc().len() == 16 + self.body_enc().len(),
    {
        let mut body: Vec<u8> = Vec::new();
        match &self.pdu {
            Some(p) => p.encode_to(&mut body),
            None => (),
        }
        encode_u32_to(16 + body.len() as u32, dst);
        encode_u32_to(self.id.to_u32(), dst);
        encode_u32_to(self.status, dst);
        encode_u32_to(self.sequence_number, dst);
        crate::codec::push_all(dst, body.as_slice());
        assert(final(dst)@ =~= old(dst)@ + self.frame_enc());
    }
}

/// An error at the frame boundary, or a body that would not decode. Frame
/// errors are fatal to the session: the byte stream is out of step.
#[derive(Debug, Copy, Clone, PartialEq, Eq, Structural)]
pub enum FrameError {
    /// The declared total length is under the 16 header bytes.
    FrameTooShort { length: u32 },
    /// The declared total length is over the configured ceiling.
    FrameTooLarge { length: u32, max: usize },
    /// The header was sound but the body would not decode.
    Decode(DecodeError),
}

/// What decoding one frame from the front of `buf` yields: a command and
/// the bytes consumed, nothing when the buffer holds less than one frame,
/// or an error.
pub open spec fn spec_decode_frame(s: Seq<u8>, max: usize) -> Result<
    Option<(CommandMirror, usize)>,
    FrameError,
> {
    match spec_decode_u32(s) {
        Err(_) => Ok(None),
        Ok((len, _)) => {
            if len < 16 {
                Err(FrameError::FrameTooShort { length: len })
            } else if len as int > max as int {
                Err(FrameError::FrameTooLarge { length: len, max })
            } else if s.len() < len {
                Ok(None)
            } else {
                let id_code = match spec_decode_u32(sdrop(s, 4)) {
                    Ok((c, _)) => c,
                    Err(_) => 0,
                };
                let status = match spec_decode_u32(sdrop(s, 8)) {
                    Ok((c, _)) => c,
                    Err(_) => 0,
                };
                let sequence_number = match spec_decode_u32(sdrop(s, 12)) {
                    Ok((c, _)) => c,
                    Err(_) => 0,
                };
                let body = s.subrange(16, len as int);
                match spec_decode_body(CommandId::spec_from_u32(id_code), body) {
                    Err(e) => Err(FrameError::Decode(e)),
                    Ok(pm) => Ok(
                        Some(
                            (
                                CommandMirror {
                                    id: CommandId::spec_from_u32(id_code),
                                    status,
                                    sequence_number,
                                    body: pm,
                                },
                                len as usize,
                            ),
                        ),
                    ),
                }
            }
        },
    }
}

/// Reads one frame off the front of a growable receive buffer.
///
/// `Ok(None)` asks for more bytes; on an error the caller must drop the
/// connection, as the byte stream can no longer be trusted. On success the
/// caller removes the consumed bytes from the buffer.
#[verifier::rlimit(60)]
#[verifier::spinoff_prover]
pub fn decode_frame(buf: &[u8], max_frame_size: usize) -> (r: Result<
    Option<(Command, usize)>,
    FrameError,
>)
    ensures
        match r {
            Ok(Some((c, n))) => {
                &&& c.wf()
                &&& 16 <= n <= buf@.len()
                &&& spec_decode_frame(buf@, max_frame_size) == Ok::<
                    Option<(CommandMirror, usize)>,
                    FrameError,
                >(Some((c.mirror(), n)))
            },
            Ok(None) => spec_decode_frame(buf@, max_frame_size) == Ok::<
                Option<(CommandMirror, usize)>,
                FrameError,
            >(None),
            Err(e) => spec_decode_frame(buf@, max_frame_size) == Err::<
                Option<(CommandMirror, usize)>,
                FrameError,
            >(e),
        },
{
    let (len, _) = match decode_u32(buf) {
        Ok(p) => p,
        Err(_) => {
            return Ok(None);
        },
    };
    if len < 16 {
        return Err(FrameError::FrameTooShort { length: len });
    }
    if len as u64 > max_frame_size as u64 {
        return Err(FrameError::FrameTooLarge { length: len, max: max_frame_size });
    }
    if (buf.len() as u64) < len as u64 {
        return Ok(None);
    }
    let (id_code, _) = match decode_u32(slice_skip(buf, 4)) {
        Ok(p) => p,
        Err(_) => {
            proof {
                assert(false);
            }
            return Ok(None);
        },
    };
    let (status, _) = match decode_u32(slice_skip(buf, 8)) {
        Ok(p) => p,
        Err(_) => {
            proof {
                assert(false);
            }
            return Ok(None);
        },
    };
    let (sequence_number, _) = match decode_u32(slice_skip(buf, 12)) {
        Ok(p) => p,
        Err(_) => {
            proof {
                assert(false);
            }
            return Ok(None);
        },
    };
    let after_header = slice_skip(buf, 16);
    let body_slice = crate::codec::slice_prefix_to_vec(after_header, len as usize - 16);
    proof {
        assert(body_slice@ =~= buf@.subrange(16, len as int));
    }
    let id = CommandId::from_u32(id_code);
    let pdu = match decode_body(id, body_slice.as_slice()) {
        Ok(p) => p,
        Err(e) => {
            return Err(FrameError::Decode(e));
        },
    };
    Ok((Some((Command { id, status, sequence_number, pdu: Some(pdu) }, len as usize))))
}

/// Round trip of a whole frame: decoding the encoding of a well-formed
/// command, followed by anything, yields the same command view back and
/// consumes exactly the frame.
#[verifier::rlimit(100)]
#[verifier::spinoff_prover]
pub proof fn lemma_frame_round_trip(c: Command, rest: Seq<u8>, max: usize)
    requires
        c.wf(),
        c.spec_pdu() is Some,
        16 + c.body_enc().len() <= max,
        16 + c.body_enc().len() <= u32::MAX,
    ensures
        spec_decode_frame(c.frame_enc() + rest, max) == Ok::<
            Option<(CommandMirror, usize)>,
            FrameError,
        >(Some((c.mirror(), (16 + c.body_enc().len()) as usize))),
{
    let body = c.body_enc();
    let len = (16 + body.len()) as u32;
    let t3 = body + rest;
    let t2 = u32_be_bytes(c.spec_sequence_number()) + t3;
    let t1 = u32_be_bytes(c.spec_status()) + t2;
    let t0 = u32_be_bytes(c.spec_id().spec_to_u32()) + t1;
    let s = c.frame_enc() + rest;
    assert(s =~= u32_be_bytes(len) + t0);

    crate::codec::lemma_u32_round_trip(len, t0);
    crate::codec::lemma_add_then_skip(u32_be_bytes(len), t0);
    assert(sdrop(s, 4) == t0);

    crate::codec::lemma_u32_round_trip(c.spec_id().spec_to_u32(), t1);
    crate::codec::lemma_add_then_skip(u32_be_bytes(c.spec_id().spec_to_u32()), t1);
    assert(sdrop(t0, 4) == t1);
    assert(sdrop(s, 8) == t1) by {
        assert(sdrop(sdrop(s, 4), 4) =~= sdrop(s, 8));
    }

    crate::codec::lemma_u32_round_trip(c.spec_status(), t2);
    crate::codec::lemma_add_then_skip(u32_be_bytes(c.spec_status()), t2);
    assert(sdrop(s, 12) == t2) by {
        assert(sdrop(sdrop(s, 8), 4) =~= sdrop(s, 12));
    }

    crate::codec::lemma_u32_round_trip(c.spec_sequence_number(), t3);

    assert(s.subrange(16, len as int) =~= body);

    let id = c.spec_id();
    assert(CommandId::spec_from_u32(id.spec_to_u32()) == id) by {
        assert(id.wf());
    }

    let p = c.spec_pdu()->Some_0;
    assert(p.matches_id(id) && p.wf());
    match p {
        Pdu::BindReceiver(b) => {
            crate::pdus::bind::lemma_bind_round_trip(b.mirror(), Seq::<u8>::empty());
            assert(bind_enc(b.mirror()) + Seq::<u8>::empty() =~= body);
        },
        Pdu::BindTransmitter(b) => {
            crate::pdus::bind::lemma_bind_round_trip(b.mirror(), Seq::<u8>::empty());
            assert(bind_enc(b.mirror()) + Seq::<u8>::empty() =~= body);
        },
        Pdu::BindTransceiver(b) => {
            crate::pdus::bind::lemma_bind_round_trip(b.mirror(), Seq::<u8>::empty());
            assert(bind_enc(b.mirror()) + Seq::<u8>::empty() =~= body);
        },
        Pdu::BindReceiverResp(b) => {
            crate::pdus::bind::lemma_bind_resp_round_trip(b);
        },
        Pdu::BindTransmitterResp(b) => {
            crate::pdus::bind::lemma_bind_resp_round_trip(b);
        },
        Pdu::BindTransceiverResp(b) => {
            crate::pdus::bind::lemma_bind_resp_round_trip(b);
        },
        Pdu::SubmitSm(b) => {
            b.lemma_wf_mirror();
            crate::pdus::submit_sm::lemma_submit_sm_round_trip(b.mirror());
        },
        Pdu::SubmitSmResp(b) => {
            crate::pdus::submit_sm::lemma_submit_sm_resp_round_trip(b);
        },
        Pdu::ReplaceSm(b) => {
            b.lemma_wf_mirror();
            crate::pdus::replace_sm::lemma_replace_sm_round_trip(b.mirror());
        },
        Pdu::ReplaceSmResp => {},
        Pdu::Unbind => {},
        Pdu::UnbindResp => {},
        Pdu::EnquireLink => {},
        Pdu::EnquireLinkResp => {},
        Pdu::GenericNack => {},
        Pdu::Other(_) => {},
    }
}

} // verus!
