//! Unit tests of the session bookkeeping and the server-side decisions.

use smpp_core::command::Command;
use smpp_core::command::CommandId;
use smpp_core::command::Pdu;
use smpp_core::pdus::bind::Bind;
use smpp_core::session::Action;
use smpp_core::session::BindMode;
use smpp_core::session::Correlation;
use smpp_core::session::PendingTable;
use smpp_core::session::Request;
use smpp_core::session::SequenceCounter;
use smpp_core::session::Session;
use smpp_core::session::SessionError;
use smpp_core::session::close_drain_done;
use smpp_core::session::response_overdue;
use smpp_core::session::SessionEvent;
use smpp_core::session::SessionState;
use smpp_core::session::UnregisteredRequest;
use smpp_core::session::RegisteredRequest;
use smpp_core::session::enquire_link_due;
use smpp_core::session::may_receive_deliver;
use smpp_core::session::may_submit;
use smpp_core::session::transition;
use smpp_core::server::BindRequest;
use smpp_core::server::DefaultBindHandler;
use smpp_core::server::DefaultHandler;
use smpp_core::server::Server;
use smpp_core::server::bind_request_from_command;
use smpp_core::server::bind_response;
use smpp_core::server::is_bind_command;
use smpp_core::strings::COctetString;
use smpp_core::values::InterfaceVersion;
use smpp_core::values::Npi;
use smpp_core::values::Ton;
use smpp_core::pdus::submit_sm::SubmitSm;
use smpp_core::strings::EmptyOrFullCOctetString;
use smpp_core::strings::OctetString;
use smpp_core::values::RegisteredDelivery;

fn c_octet<const MIN: usize, const MAX: usize>(s: &str) -> COctetString<MIN, MAX> {
    COctetString::from_ascii(s.as_bytes()).unwrap()
}

fn test_bind() -> Bind {
    Bind::new(
        c_octet("esme"),
        c_octet("pw"),
        c_octet(""),
        InterfaceVersion::smpp_5_0(),
        Ton::Unknown,
        Npi::Unknown,
        c_octet(""),
    )
}

#[test]
fn session_state_transitions() {
    assert_eq!(transition(SessionState::Open, SessionEvent::BindSucceeded(BindMode::Tx)), SessionState::BoundTx);
    assert_eq!(transition(SessionState::Open, SessionEvent::BindSucceeded(BindMode::Rx)), SessionState::BoundRx);
    assert_eq!(transition(SessionState::Open, SessionEvent::BindSucceeded(BindMode::Trx)), SessionState::BoundTrx);
    assert_eq!(transition(SessionState::Open, SessionEvent::BindFailed), SessionState::Closed);
    assert_eq!(transition(SessionState::BoundTrx, SessionEvent::UnbindRequested), SessionState::Unbound);
    assert_eq!(transition(SessionState::BoundTx, SessionEvent::LinkFailed), SessionState::Closed);
    assert_eq!(transition(SessionState::Unbound, SessionEvent::UnbindResponded), SessionState::Closed);
    assert_eq!(transition(SessionState::Unbound, SessionEvent::UnbindTimedOut), SessionState::Closed);
    assert_eq!(transition(SessionState::BoundRx, SessionEvent::CloseCompleted), SessionState::Closed);
    assert_eq!(transition(SessionState::Open, SessionEvent::Aborted), SessionState::Closed);
    // a closed session stays closed
    assert_eq!(transition(SessionState::Closed, SessionEvent::BindSucceeded(BindMode::Trx)), SessionState::Closed);
    assert_eq!(transition(SessionState::Closed, SessionEvent::UnbindRequested), SessionState::Closed);
    // events that do not apply leave the state alone
    assert_eq!(transition(SessionState::BoundTx, SessionEvent::BindSucceeded(BindMode::Rx)), SessionState::BoundTx);
    assert_eq!(transition(SessionState::Open, SessionEvent::UnbindResponded), SessionState::Open);

    assert!(may_submit(SessionState::BoundTx));
    assert!(may_submit(SessionState::BoundTrx));
    assert!(!may_submit(SessionState::BoundRx));
    assert!(!may_submit(SessionState::Open));
    assert!(may_receive_deliver(SessionState::BoundRx));
    assert!(may_receive_deliver(SessionState::BoundTrx));
    assert!(!may_receive_deliver(SessionState::BoundTx));
}

#[test]
fn sequence_numbers_start_at_one_and_increase() {
    let mut counter = SequenceCounter::new();
    assert_eq!(counter.allocate().unwrap(), 1);
    assert_eq!(counter.allocate().unwrap(), 2);
    assert_eq!(counter.allocate().unwrap(), 3);
}

#[test]
fn pending_table_correlation() {
    let mut table = PendingTable::new();
    table.insert(1);
    table.insert(2);
    table.insert(3);
    assert_eq!(table.len(), 3);
    assert!(table.contains(2));

    // a matching response completes its waiter and frees the entry
    assert_eq!(table.correlate(2), Correlation::Matched);
    assert!(!table.contains(2));
    assert_eq!(table.len(), 2);

    // nobody waits under this number: the response is unsolicited
    assert_eq!(table.correlate(2), Correlation::Unsolicited);
    assert_eq!(table.correlate(9), Correlation::Unsolicited);

    // a timed-out request leaves the table; its late response is unsolicited
    table.remove(1);
    assert_eq!(table.correlate(1), Correlation::Unsolicited);
    assert_eq!(table.correlate(3), Correlation::Matched);
    assert_eq!(table.len(), 0);
}

#[test]
fn keep_alive_due_after_interval() {
    assert!(!enquire_link_due(1099, 1000, 100));
    assert!(enquire_link_due(1100, 1000, 100));
    assert!(enquire_link_due(1500, 1000, 100));
    assert!(enquire_link_due(1000, 1000, 0));
}

#[test]
fn actions_wrap_requests() {
    let command = Command::new(CommandId::EnquireLink, 0, 7, Pdu::EnquireLink);
    let action = Action::registered_request(RegisteredRequest {
        sequence_number: 7,
        command: command.clone(),
    });
    assert!(matches!(
        action,
        Action::Request(Request::Registered(RegisteredRequest { sequence_number: 7, .. }))
    ));

    let action = Action::unregistered_request(UnregisteredRequest { command });
    assert!(matches!(action, Action::Request(Request::Unregistered(_))));
}

#[test]
fn bind_classification_and_rejection() {
    // the filter admits only the three bind operations
    assert!(is_bind_command(CommandId::BindTransmitter));
    assert!(is_bind_command(CommandId::BindReceiver));
    assert!(is_bind_command(CommandId::BindTransceiver));
    assert!(!is_bind_command(CommandId::SubmitSm));
    assert!(!is_bind_command(CommandId::EnquireLink));

    // a bind command classifies into a bind request
    let command = Command::new(CommandId::BindTransceiver, 0, 12, Pdu::BindTransceiver(test_bind()));
    let request: BindRequest = bind_request_from_command(command).unwrap();
    assert_eq!(request.kind(), BindMode::Trx);
    assert_eq!(request.sequence_id, 12);
    assert_eq!(request.bind.system_id.as_bytes(), b"esme\0");

    // a non-bind body that slipped through is an error
    let command = Command::new(CommandId::EnquireLink, 0, 13, Pdu::EnquireLink);
    assert!(bind_request_from_command(command).is_err());

    // the reject path writes the matching response with the given status
    // under the request's sequence number
    let response = bind_response(BindMode::Trx, c_octet("server"), 0x0000000D, 12);
    assert_eq!(response.id(), CommandId::BindTransceiverResp);
    assert_eq!(response.status(), 0x0000000D);
    assert_eq!(response.sequence_number(), 12);
}

#[test]
fn default_handlers() {
    let submit = SubmitSm::new(
        c_octet(""),
        Ton::Unknown,
        Npi::Unknown,
        c_octet("111"),
        Ton::Unknown,
        Npi::Unknown,
        c_octet("222"),
        0,
        0,
        0,
        EmptyOrFullCOctetString::empty(),
        EmptyOrFullCOctetString::empty(),
        RegisteredDelivery::default(),
        0,
        0,
        0,
        OctetString::new(b"hi".to_vec()).unwrap(),
        Vec::new(),
    );
    let handler = DefaultHandler;
    let (resp, status) = handler.handle_pdu(4, &Pdu::SubmitSm(submit)).unwrap();
    assert_eq!(status, 0);
    assert!(matches!(resp, Pdu::SubmitSmResp(_)));
    assert!(handler.handle_pdu(5, &Pdu::EnquireLink).is_none());

    let bind_handler = DefaultBindHandler;
    let command = Command::new(CommandId::BindTransceiver, 0, 1, Pdu::BindTransceiver(test_bind()));
    let request = bind_request_from_command(command).unwrap();
    assert!(bind_handler.bind(&request).is_ok());

    let server = Server::builder().system_id(c_octet("mc")).build();
    assert_eq!(server.enquire_link_interval_ms, 5000);
    assert_eq!(server.response_timeout_ms, Some(2000));
    assert!(server.check_interface_version);
}

#[test]
fn session_request_lifecycle() {
    let mut session = Session::new();
    assert_eq!(session.state(), SessionState::Open);

    session.on_event(SessionEvent::BindSucceeded(BindMode::Trx));
    assert_eq!(session.state(), SessionState::BoundTrx);

    // requests get fresh, increasing sequence numbers
    assert_eq!(session.begin_request().unwrap(), 1);
    assert_eq!(session.begin_request().unwrap(), 2);
    assert_eq!(session.begin_request().unwrap(), 3);
    assert_eq!(session.pending_len(), 3);

    // a response completes exactly its own waiter
    assert_eq!(session.on_response(2), Correlation::Matched);
    assert_eq!(session.on_response(2), Correlation::Unsolicited);
    assert_eq!(session.pending_len(), 2);

    // a timed-out request is abandoned; its late response is unsolicited
    session.abandon_request(1);
    assert_eq!(session.on_response(1), Correlation::Unsolicited);

    // tearing down fails what is left and closes the session
    let failed = session.fail_all_pending();
    assert_eq!(failed, 1);
    assert_eq!(session.state(), SessionState::Closed);
    assert_eq!(session.pending_len(), 0);

    // a closed session rejects further requests immediately
    assert_eq!(session.begin_request(), Err(SessionError::ConnectionClosed));
}

#[test]
fn request_and_drain_deadlines() {
    assert!(!response_overdue(1049, 1000, 50));
    assert!(response_overdue(1050, 1000, 50));

    assert!(close_drain_done(0, 0, 1000));
    assert!(!close_drain_done(3, 999, 1000));
    assert!(close_drain_done(3, 1000, 1000));
}
