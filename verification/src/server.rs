//! Server-side decisions: accepting a bind, answering or rejecting it, and
//! the default request handler.
//!
//! The acceptor's I/O loop lives with the transport; what it decides lives
//! here. For each accepted byte stream the loop waits for one of the three
//! bind operations, classifies what arrived with
//! [`bind_request_from_command`], and on rejection writes the response that
//! [`bind_response`] builds — a reject is answered and closed, never
//! silently dropped.

use vstd::prelude::*;

use crate::command::Command;
use crate::command::CommandId;
use crate::command::Pdu;
use crate::command::STATUS_OK;
use crate::errors::DecodeError;
use crate::pdus::bind::BindResp;
use crate::pdus::submit_sm::SubmitSmResp;
use crate::session::BindMode;
use crate::strings::COctetString;
use crate::tlv::Tlv;

verus! {

/// How long, in milliseconds, between keep-alive probes by default.
pub const DEFAULT_ENQUIRE_LINK_INTERVAL_MS: u64 = 5000;

/// How long, in milliseconds, a request may wait for its response by
/// default.
pub const DEFAULT_RESPONSE_TIMEOUT_MS: u64 = 2000;

/// What a server binds its sessions with: its identity and its timing
/// policy. The transport itself stays with the caller.
#[derive(Debug, Clone, PartialEq, Eq, Hash)]
pub struct Server {
    /// Identifies the MC to every ESME that binds.
    pub system_id: COctetString<1, 16>,
    /// Grace, in milliseconds, for an accepted stream to send its bind.
    pub session_timeout_ms: u64,
    /// Keep-alive period, in milliseconds.
    pub enquire_link_interval_ms: u64,
    /// Per-request reply deadline, in milliseconds, when bounded.
    pub response_timeout_ms: Option<u64>,
    /// Whether the interface version of a bind is held against the
    /// versions the server speaks.
    pub check_interface_version: bool,
}

impl Server {
    pub fn builder() -> (r: ServerBuilder)
        ensures
            r.system_id@ == seq![0u8],
            r.session_timeout_ms == 0,
    {
        ServerBuilder::new()
    }
}

/// Builds a [`Server`], defaulting every timing knob.
#[derive(Debug, Clone, PartialEq, Eq, Hash)]
pub struct ServerBuilder {
    pub system_id: COctetString<1, 16>,
    pub session_timeout_ms: u64,
}

impl ServerBuilder {
    pub fn new() -> (r: Self)
        ensures
            r.system_id@ == seq![0u8],
            r.session_timeout_ms == 0,
    {
        Self { system_id: COctetString::null(), session_timeout_ms: 0 }
    }

    pub fn system_id(self, system_id: COctetString<1, 16>) -> (r: Self)
        ensures
            r.system_id == system_id,
            r.session_timeout_ms == self.session_timeout_ms,
    {
        Self { system_id, session_timeout_ms: self.session_timeout_ms }
    }

    pub fn build(self) -> (r: Server)
        ensures
            r.system_id == self.system_id,
            r.session_timeout_ms == self.session_timeout_ms,
            r.enquire_link_interval_ms == DEFAULT_ENQUIRE_LINK_INTERVAL_MS,
            r.response_timeout_ms == Some(DEFAULT_RESPONSE_TIMEOUT_MS),
            r.check_interface_version,
    {
        Server {
            system_id: self.system_id,
            session_timeout_ms: self.session_timeout_ms,
            enquire_link_interval_ms: DEFAULT_ENQUIRE_LINK_INTERVAL_MS,
            response_timeout_ms: Some(DEFAULT_RESPONSE_TIMEOUT_MS),
            check_interface_version: true,
        }
    }
}

impl Default for ServerBuilder {
    fn default() -> (r: Self)
        ensures
            r.system_id@ == seq![0u8],
            r.session_timeout_ms == 0,
    {
        Self::new()
    }
}

/// Why no bind request came out of an accepted stream.
#[derive(Debug, Copy, Clone, PartialEq, Eq, Structural)]
pub enum BindError {
    /// The client sent no bind operation within the configured grace.
    BindTimeout,
    /// The connection closed before a bind command was received.
    ConnectionClosedByPeer,
    /// A frame's body would not decode.
    Decode(DecodeError),
    /// A bind command arrived without a body.
    MissingPdu,
    /// A command passed the bind filter and still carried no bind body.
    UnexpectedError,
}

/// The identity a bind request announced.
#[derive(Debug, Clone, PartialEq, Eq, Hash)]
pub struct Bind {
    /// The system id of the ESME asking to bind.
    pub system_id: COctetString<1, 16>,
}

/// A bind operation a client sent, waiting to be accepted or rejected.
#[derive(Debug, Clone, PartialEq, Eq, Hash)]
pub struct BindRequest {
    /// The identity the client announced.
    pub bind: Bind,
    /// Which of the three bind operations was requested.
    pub kind: BindMode,
    /// The sequence number of the bind command, reused by the response.
    pub sequence_id: u32,
}

impl BindRequest {
    /// Which of the three bind operations was requested.
    pub fn kind(&self) -> (r: BindMode)
        ensures
            r == self.kind,
    {
        self.kind
    }
}

/// Whether a command id is one of the three bind operations the acceptor
/// waits for.
pub fn is_bind_command(id: CommandId) -> (r: bool)
    ensures
        r == (id == CommandId::BindTransmitter || id == CommandId::BindReceiver || id
            == CommandId::BindTransceiver),
{
    match id {
        CommandId::BindTransmitter => true,
        CommandId::BindReceiver => true,
        CommandId::BindTransceiver => true,
        _ => false,
    }
}

/// Classifies a command that passed the bind filter: the bind request it
/// carries, `MissingPdu` when the command has no body, `UnexpectedError`
/// when the body is not a bind after all.
pub fn bind_request_from_command(command: Command) -> (r: Result<BindRequest, BindError>)
    ensures
        match r {
            Ok(b) => {
                &&& b.sequence_id == command.spec_sequence_number()
                &&& match command.spec_pdu() {
                    Some(p) => match p {
                        Pdu::BindTransmitter(body) => b.kind == BindMode::Tx
                            && b.bind.system_id == body.system_id,
                        Pdu::BindReceiver(body) => b.kind == BindMode::Rx
                            && b.bind.system_id == body.system_id,
                        Pdu::BindTransceiver(body) => b.kind == BindMode::Trx
                            && b.bind.system_id == body.system_id,
                        _ => false,
                    },
                    None => false,
                }
            },
            Err(e) => {
                &&& e == BindError::MissingPdu <==> command.spec_pdu() is None
                &&& (command.spec_pdu() matches Some(p) ==> !(p matches Pdu::BindTransmitter(_)
                    || p matches Pdu::BindReceiver(_) || p matches Pdu::BindTransceiver(_)))
            },
        },
{
    let (_, _, sequence_id, pdu) = command.into_parts();
    match pdu {
        None => Err(BindError::MissingPdu),
        Some(Pdu::BindTransmitter(body)) => Ok(
            BindRequest { bind: Bind { system_id: body.system_id }, kind: BindMode::Tx, sequence_id },
        ),
        Some(Pdu::BindReceiver(body)) => Ok(
            BindRequest { bind: Bind { system_id: body.system_id }, kind: BindMode::Rx, sequence_id },
        ),
        Some(Pdu::BindTransceiver(body)) => Ok(
            BindRequest { bind: Bind { system_id: body.system_id }, kind: BindMode::Trx, sequence_id },
        ),
        Some(_) => Err(BindError::UnexpectedError),
    }
}

/// The id of the response to each of the three bind operations.
pub open spec fn spec_bind_resp_id(kind: BindMode) -> CommandId {
    match kind {
        BindMode::Tx => CommandId::BindTransmitterResp,
        BindMode::Rx => CommandId::BindReceiverResp,
        BindMode::Trx => CommandId::BindTransceiverResp,
    }
}

/// Builds the response that rejects (or, with a zero status, accepts) a
/// bind request: the matching bind response, carrying the given status
/// under the request's own sequence number. On reject the caller writes
/// this frame and closes; a silent drop would break the protocol.
pub fn bind_response(kind: BindMode, system_id: COctetString<1, 16>, status: u32, sequence_id: u32) -> (r:
    Command)
    requires
        system_id.wf(),
    ensures
        r.wf(),
        r.spec_id() == spec_bind_resp_id(kind),
        r.spec_status() == status,
        r.spec_sequence_number() == sequence_id,
        r.spec_pdu() matches Some(p) && match p {
            Pdu::BindTransmitterResp(b) => kind == BindMode::Tx && b.system_id == system_id
                && b.sc_interface_version is None,
            Pdu::BindReceiverResp(b) => kind == BindMode::Rx && b.system_id == system_id
                && b.sc_interface_version is None,
            Pdu::BindTransceiverResp(b) => kind == BindMode::Trx && b.system_id == system_id
                && b.sc_interface_version is None,
            _ => false,
        },
{
    let resp = BindResp::new(system_id, None);
    match kind {
        BindMode::Tx => Command::new(
            CommandId::BindTransmitterResp,
            status,
            sequence_id,
            Pdu::BindTransmitterResp(resp),
        ),
        BindMode::Rx => Command::new(
            CommandId::BindReceiverResp,
            status,
            sequence_id,
            Pdu::BindReceiverResp(resp),
        ),
        BindMode::Trx => Command::new(
            CommandId::BindTransceiverResp,
            status,
            sequence_id,
            Pdu::BindTransceiverResp(resp),
        ),
    }
}

/// The host's default request handler.
///
/// Its asynchronous shell belongs to the runtime around the library; the
/// decision it makes per PDU is here.
#[derive(Debug, Copy, Clone, PartialEq, Eq, Structural)]
pub struct DefaultHandler;

impl DefaultHandler {
    /// Answers a `submit_sm` with an empty `submit_sm_resp` and a zero
    /// status; everything else gets no response.
    pub fn handle_pdu(&self, sequence_number: u32, pdu: &Pdu) -> (r: Option<(Pdu, u32)>)
        ensures
            match r {
                Some((resp, status)) => {
                    &&& pdu matches Pdu::SubmitSm(_)
                    &&& status == STATUS_OK
                    &&& resp matches Pdu::SubmitSmResp(b) && b.mirror() == (
                        seq![0u8],
                        Seq::<(crate::tlv::TlvTag, u16, Seq<u8>)>::empty(),
                    )
                },
                None => !(pdu matches Pdu::SubmitSm(_)),
            },
    {
        match pdu {
            Pdu::SubmitSm(_) => {
                let tlvs: Vec<Tlv> = Vec::new();
                let ghost empty_tlvs = tlvs@;
                let resp = SubmitSmResp::new(COctetString::null(), tlvs);
                proof {
                    assert(empty_tlvs.map_values(|t: Tlv| t.mirror()) =~= Seq::<
                        (crate::tlv::TlvTag, u16, Seq<u8>),
                    >::empty());
                }
                Some((Pdu::SubmitSmResp(resp), STATUS_OK))
            },
            _ => None,
        }
    }
}

/// The host's default bind handler: it accepts every bind.
#[derive(Debug, Copy, Clone, PartialEq, Eq, Structural)]
pub struct DefaultBindHandler;

impl DefaultBindHandler {
    /// Accepts the bind whatever the credentials; the handler for the
    /// bound session is the default one.
    pub fn bind(&self, _request: &BindRequest) -> (r: Result<DefaultHandler, u32>)
        ensures
            r is Ok,
    {
        Ok(DefaultHandler)
    }
}

} // verus!
