//! Session bookkeeping: the connection state machine, the sequence-number
//! allocator, the pending-response table, and the keep-alive decision.
//!
//! These are the decisions of the connection driver, kept apart from the
//! I/O that carries them out: the driver loop performs an action, hands the
//! outcome back as an event, and the functions here say what follows.

use vstd::prelude::*;

use crate::command::Command;

verus! {

/// The role a bind establishes.
#[derive(Debug, Copy, Clone, PartialEq, Eq, Hash, Structural)]
pub enum BindMode {
    /// Transmitter: may submit, does not receive deliveries.
    Tx,
    /// Receiver: receives deliveries, does not submit.
    Rx,
    /// Transceiver: both.
    Trx,
}

/// Where a session stands in its lifecycle.
#[derive(Debug, Copy, Clone, PartialEq, Eq, Hash, Structural)]
pub enum SessionState {
    /// The transport is up; no bind has completed.
    Open,
    /// Bound as transmitter.
    BoundTx,
    /// Bound as receiver.
    BoundRx,
    /// Bound as transceiver.
    BoundTrx,
    /// An unbind was exchanged; the link is being torn down.
    Unbound,
    /// The session is over; every further request is refused.
    Closed,
}

/// What happened to the session, as far as its state is concerned.
#[derive(Debug, Copy, Clone, PartialEq, Eq, Hash, Structural)]
pub enum SessionEvent {
    /// A bind completed with status zero, in the given role.
    BindSucceeded(BindMode),
    /// A bind was refused or its response never came.
    BindFailed,
    /// An unbind request went out or came in.
    UnbindRequested,
    /// The unbind response arrived.
    UnbindResponded,
    /// The unbind response never came.
    UnbindTimedOut,
    /// The transport failed, a frame would not decode, or the keep-alive
    /// response never came: the link can no longer be trusted.
    LinkFailed,
    /// A graceful close was requested and the drain has finished.
    CloseCompleted,
    /// An immediate abort was requested.
    Aborted,
}

/// The bound state a role maps to.
pub open spec fn spec_bound_state(mode: BindMode) -> SessionState {
    match mode {
        BindMode::Tx => SessionState::BoundTx,
        BindMode::Rx => SessionState::BoundRx,
        BindMode::Trx => SessionState::BoundTrx,
    }
}

/// Whether the state is one of the bound states.
pub open spec fn spec_is_bound(s: SessionState) -> bool {
    s == SessionState::BoundTx || s == SessionState::BoundRx || s == SessionState::BoundTrx
}

/// The session lifecycle: which state each event leads to from each state.
/// Events that do not apply in a state leave it as it stands; a closed
/// session stays closed whatever happens.
pub open spec fn spec_transition(s: SessionState, e: SessionEvent) -> SessionState {
    match e {
        SessionEvent::LinkFailed => SessionState::Closed,
        SessionEvent::CloseCompleted => SessionState::Closed,
        SessionEvent::Aborted => SessionState::Closed,
        SessionEvent::BindSucceeded(mode) => if s == SessionState::Open {
            spec_bound_state(mode)
        } else {
            s
        },
        SessionEvent::BindFailed => if s == SessionState::Open {
            SessionState::Closed
        } else {
            s
        },
        SessionEvent::UnbindRequested => if spec_is_bound(s) {
            SessionState::Unbound
        } else {
            s
        },
        SessionEvent::UnbindResponded => if s == SessionState::Unbound {
            SessionState::Closed
        } else {
            s
        },
        SessionEvent::UnbindTimedOut => if s == SessionState::Unbound {
            SessionState::Closed
        } else {
            s
        },
    }
}

/// Applies one event to the session state; see [`spec_transition`].
pub fn transition(s: SessionState, e: SessionEvent) -> (r: SessionState)
    ensures
        r == spec_transition(s, e),
        s == SessionState::Closed ==> r == SessionState::Closed,
{
    match e {
        SessionEvent::LinkFailed => SessionState::Closed,
        SessionEvent::CloseCompleted => SessionState::Closed,
        SessionEvent::Aborted => SessionState::Closed,
        SessionEvent::BindSucceeded(mode) => if s == SessionState::Open {
            match mode {
                BindMode::Tx => SessionState::BoundTx,
                BindMode::Rx => SessionState::BoundRx,
                BindMode::Trx => SessionState::BoundTrx,
            }
        } else {
            s
        },
        SessionEvent::BindFailed => if s == SessionState::Open {
            SessionState::Closed
        } else {
            s
        },
        SessionEvent::UnbindRequested => {
            if s == SessionState::BoundTx || s == SessionState::BoundRx || s
                == SessionState::BoundTrx {
                SessionState::Unbound
            } else {
                s
            }
        },
        SessionEvent::UnbindResponded => if s == SessionState::Unbound {
            SessionState::Closed
        } else {
            s
        },
        SessionEvent::UnbindTimedOut => if s == SessionState::Unbound {
            SessionState::Closed
        } else {
            s
        },
    }
}

/// A closed session stays closed: no event leads anywhere else.
pub proof fn lemma_closed_is_final(e: SessionEvent)
    ensures
        spec_transition(SessionState::Closed, e) == SessionState::Closed,
{
}

/// Whether the state permits submitting application requests: only a
/// transmitter or transceiver binding does.
pub fn may_submit(s: SessionState) -> (r: bool)
    ensures
        r == (s == SessionState::BoundTx || s == SessionState::BoundTrx),
{
    s == SessionState::BoundTx || s == SessionState::BoundTrx
}

/// Whether the state permits receiving delivered messages: only a receiver
/// or transceiver binding does.
pub fn may_receive_deliver(s: SessionState) -> (r: bool)
    ensures
        r == (s == SessionState::BoundRx || s == SessionState::BoundTrx),
{
    s == SessionState::BoundRx || s == SessionState::BoundTrx
}

/// The issued sequence numbers are 1, 2, 3, … in order.
pub open spec fn spec_issued_in_order(issued: Seq<u32>, next: u32) -> bool {
    &&& next >= 1
    &&& issued.len() == next - 1
    &&& forall|i: int| 0 <= i < issued.len() ==> #[trigger] issued[i] == i + 1
}

/// The per-session sequence-number allocator: a monotonic counter starting
/// at 1, incremented on every outgoing request. The ghost history records
/// every number handed out.
pub struct SequenceCounter {
    next: u32,
    issued: Ghost<Seq<u32>>,
}

impl SequenceCounter {
    /// Every issued number in order, for stating what allocation did.
    pub closed spec fn spec_issued(self) -> Seq<u32> {
        self.issued@
    }

    /// The number the next allocation will hand out.
    pub closed spec fn spec_next(self) -> u32 {
        self.next
    }

    /// The type's invariant: the numbers handed out so far are exactly
    /// 1 up to the counter, in order.
    pub open spec fn wf(self) -> bool {
        spec_issued_in_order(self.spec_issued(), self.spec_next())
    }

    /// A fresh allocator; the first number it hands out is 1.
    pub fn new() -> (r: Self)
        ensures
            r.wf(),
            r.spec_next() == 1,
            r.spec_issued() == Seq::<u32>::empty(),
    {
        let r = Self { next: 1, issued: Ghost(Seq::empty()) };
        proof {
            assert(r.wf());
        }
        r
    }

    /// Hands out the next sequence number; absent once the counter would
    /// wrap, which a session treats as an error.
    pub fn allocate(&mut self) -> (r: Option<u32>)
        requires
            old(self).wf(),
        ensures
            final(self).wf(),
            match r {
                Some(n) => {
                    &&& n == old(self).spec_next()
                    &&& n >= 1
                    &&& final(self).spec_next() == n + 1
                    &&& final(self).spec_issued() == old(self).spec_issued().push(n)
                },
                None => {
                    &&& old(self).spec_next() == u32::MAX
                    &&& *final(self) == *old(self)
                },
            },
            r is Some <==> old(self).spec_next() < u32::MAX,
    {
        if self.next == u32::MAX {
            return None;
        }
        let n = self.next;
        self.next = self.next + 1;
        proof {
            self.issued = Ghost(self.issued@.push(n));
        }
        Some(n)
    }
}

/// Sequence monotonicity: across any run of allocations on one session,
/// the numbers handed out are strictly increasing and start at 1.
pub proof fn lemma_sequence_monotonic(c: SequenceCounter)
    requires
        c.wf(),
    ensures
        forall|i: int, j: int|
            0 <= i < j < c.spec_issued().len() ==> c.spec_issued()[i] < c.spec_issued()[j],
        c.spec_issued().len() > 0 ==> c.spec_issued()[0] == 1,
{
}

/// What became of an incoming response after correlation.
#[derive(Debug, Copy, Clone, PartialEq, Eq, Hash, Structural)]
pub enum Correlation {
    /// A request with this sequence number was waiting: its waiter gets
    /// the response.
    Matched,
    /// Nobody was waiting: the response is surfaced as unsolicited. The
    /// requester may have timed out or cancelled.
    Unsolicited,
}

/// The pending-response table: the sequence numbers of the requests that
/// have been written and whose responses are still owed.
#[derive(Debug)]
pub struct PendingTable {
    entries: Vec<u32>,
}

impl PendingTable {
    /// The outstanding sequence numbers.
    pub closed spec fn view_set(self) -> Seq<u32> {
        self.entries@
    }

    /// The type's invariant: one entry per outstanding request.
    pub open spec fn wf(self) -> bool {
        self.view_set().no_duplicates()
    }

    /// Whether a response with this sequence number is owed.
    pub open spec fn spec_contains(self, sequence_number: u32) -> bool {
        self.view_set().contains(sequence_number)
    }

    /// An empty table: no responses owed.
    pub fn new() -> (r: Self)
        ensures
            r.wf(),
            forall|q: u32| !(#[trigger] r.spec_contains(q)),
    {
        let r = Self { entries: Vec::new() };
        proof {
            assert(forall|q: u32| !(#[trigger] r.view_set().contains(q)));
        }
        r
    }

    /// How many responses are owed.
    pub fn len(&self) -> (r: usize)
        ensures
            r == self.view_set().len(),
    {
        self.entries.len()
    }

    pub fn contains(&self, sequence_number: u32) -> (r: bool)
        ensures
            r == self.spec_contains(sequence_number),
    {
        let mut i: usize = 0;
        loop
            invariant
                i <= self.entries@.len(),
                forall|j: int| 0 <= j < i ==> self.entries@[j] != sequence_number,
            decreases self.entries@.len() - i,
        {
            if i == self.entries.len() {
                proof {
                    assert(!self.view_set().contains(sequence_number));
                }
                return false;
            }
            if self.entries[i] == sequence_number {
                return true;
            }
            i += 1;
        }
    }

    /// Registers an outgoing request. The registration happens before the
    /// bytes reach the wire, so a fast response cannot arrive unmatched.
    pub fn insert(&mut self, sequence_number: u32)
        requires
            old(self).wf(),
            !old(self).spec_contains(sequence_number),
        ensures
            final(self).wf(),
            final(self).view_set() == old(self).view_set().push(sequence_number),
            forall|q: u32|
                #[trigger] final(self).spec_contains(q) <==> (old(self).spec_contains(q) || q
                    == sequence_number),
    {
        let ghost prev = self.entries@;
        self.entries.push(sequence_number);
        proof {
            let cur = self.view_set();
            assert(cur == prev.push(sequence_number));
            assert(cur.no_duplicates()) by {
                assert forall|a: int, b: int|
                    0 <= a < cur.len() && 0 <= b < cur.len() && a != b implies cur[a] != cur[b] by {
                    if a < prev.len() && b < prev.len() {
                        assert(cur[a] == prev[a] && cur[b] == prev[b]);
                    } else if a == prev.len() as int {
                        assert(cur[a] == sequence_number && cur[b] == prev[b]);
                        if cur[b] == sequence_number {
                            assert(prev.contains(sequence_number));
                        }
                    } else {
                        assert(cur[b] == sequence_number && cur[a] == prev[a]);
                        if cur[a] == sequence_number {
                            assert(prev.contains(sequence_number));
                        }
                    }
                }
            }
            assert forall|q: u32| #[trigger]
                cur.contains(q) implies (prev.contains(q) || q == sequence_number) by {
                let k = choose|k: int| 0 <= k < cur.len() && cur[k] == q;
                if k < prev.len() {
                    assert(prev[k] == q);
                }
            }
            assert forall|q: u32|
                (prev.contains(q) || q == sequence_number) implies #[trigger] cur.contains(q) by {
                if q == sequence_number {
                    assert(cur[prev.len() as int] == q);
                } else {
                    let k = choose|k: int| 0 <= k < prev.len() && prev[k] == q;
                    assert(cur[k] == q);
                }
            }
        }
    }

    /// Drops the entry for a sequence number, after its response arrived,
    /// timed out, or was abandoned.
    #[verifier::loop_isolation(false)]
    pub fn remove(&mut self, sequence_number: u32)
        requires
            old(self).wf(),
        ensures
            final(self).wf(),
            !final(self).spec_contains(sequence_number),
            forall|q: u32|
                q != sequence_number ==> (#[trigger] final(self).spec_contains(q) <==> old(
                    self,
                ).spec_contains(q)),
    {
        let mut i: usize = 0;
        loop
            invariant
                i <= self.entries@.len(),
                self.entries@ == old(self).entries@,
                forall|j: int| 0 <= j < i ==> self.entries@[j] != sequence_number,
            decreases self.entries@.len() - i,
        {
            if i == self.entries.len() {
                proof {
                    assert(!self.view_set().contains(sequence_number)) by {
                        if self.view_set().contains(sequence_number) {
                            let k = choose|k: int|
                                0 <= k < self.view_set().len() && self.view_set()[k]
                                    == sequence_number;
                            assert(self.entries@[k] != sequence_number);
                        }
                    }
                }
                return ;
            }
            if self.entries[i] == sequence_number {
                let ghost prev = self.entries@;
                self.entries.swap_remove(i);
                proof {
                    let cur = self.view_set();
                    let last = prev.len() - 1;
                    assert(prev.no_duplicates());
                    assert(cur == prev.update(i as int, prev.last()).drop_last());
                    assert(cur.len() == last);
                    assert(forall|k: int|
                        0 <= k < cur.len() && k != i ==> #[trigger] cur[k] == prev[k]);
                    assert((i as int) < cur.len() ==> cur[i as int] == prev[last]);
                    assert(prev[i as int] == sequence_number);
                    assert(cur.no_duplicates()) by {
                        assert forall|a: int, b: int|
                            0 <= a < cur.len() && 0 <= b < cur.len() && a != b implies cur[a]
                            != cur[b] by {
                            if a == i as int {
                                assert(cur[a] == prev[last]);
                                assert(cur[b] == prev[b]);
                                assert(b != last);
                                assert(prev[last] != prev[b]);
                            } else if b == i as int {
                                assert(cur[b] == prev[last]);
                                assert(cur[a] == prev[a]);
                                assert(a != last);
                                assert(prev[last] != prev[a]);
                            } else {
                                assert(cur[a] == prev[a]);
                                assert(cur[b] == prev[b]);
                                assert(prev[a] != prev[b]);
                            }
                        }
                    }
                    assert forall|q: u32| #[trigger]
                        cur.contains(q) implies (prev.contains(q) && q != sequence_number) by {
                        let k = choose|k: int| 0 <= k < cur.len() && cur[k] == q;
                        if k == i as int {
                            assert(prev[last] == q);
                            assert(prev.contains(q));
                            assert(last != i as int);
                            if q == sequence_number {
                                assert(prev[last] == prev[i as int]);
                                assert(false);
                            }
                        } else {
                            assert(prev[k] == q);
                            assert(prev.contains(q));
                            if q == sequence_number {
                                assert(prev[k] == prev[i as int]);
                                assert(false);
                            }
                        }
                    }
                    assert forall|q: u32|
                        (prev.contains(q) && q != sequence_number) implies #[trigger] cur.contains(
                        q,
                    ) by {
                        let k = choose|k: int| 0 <= k < prev.len() && prev[k] == q;
                        assert(k != i as int);
                        if k == last {
                            assert((i as int) != last);
                            assert((i as int) < cur.len());
                            assert(cur[i as int] == q);
                        } else {
                            assert(cur[k] == q);
                        }
                    }
                }
                return ;
            }
            i += 1;
        }
    }

    /// Empties the table, when the session tears down and every waiter
    /// still pending is failed.
    pub fn clear(&mut self)
        ensures
            final(self).wf(),
            final(self).view_set().len() == 0,
            forall|q: u32| !(#[trigger] final(self).spec_contains(q)),
    {
        self.entries.clear();
    }

    /// Routes an arriving response by its sequence number: a hit completes
    /// the matching waiter and leaves the table without the entry; a miss
    /// is unsolicited and changes nothing.
    pub fn correlate(&mut self, response_sequence_number: u32) -> (r: Correlation)
        requires
            old(self).wf(),
        ensures
            final(self).wf(),
            r == Correlation::Matched <==> old(self).spec_contains(response_sequence_number),
            !final(self).spec_contains(response_sequence_number),
            forall|q: u32|
                q != response_sequence_number ==> (#[trigger] final(self).spec_contains(q) <==> old(
                    self,
                ).spec_contains(q)),
    {
        if self.contains(response_sequence_number) {
            self.remove(response_sequence_number);
            Correlation::Matched
        } else {
            Correlation::Unsolicited
        }
    }
}

/// Whether the keep-alive timer calls for an `enquire_link`: it does as
/// soon as `enquire_link_interval` has passed since the last outgoing
/// write.
pub fn enquire_link_due(now_ms: u64, last_write_ms: u64, enquire_link_interval_ms: u64) -> (r: bool)
    requires
        last_write_ms <= now_ms,
    ensures
        r == (now_ms - last_write_ms >= enquire_link_interval_ms),
{
    now_ms - last_write_ms >= enquire_link_interval_ms
}


/// Why a session operation failed, as surfaced to the caller.
#[derive(Debug, Copy, Clone, PartialEq, Eq, Hash, Structural)]
pub enum SessionError {
    /// The bind response never came.
    BindTimeout,
    /// The bind response carried this non-zero status.
    BindRejected(u32),
    /// The response to a request never came within its deadline.
    Timeout,
    /// The waiter for the response was dropped before it resolved.
    Cancelled,
    /// The session is closed; no further request is taken.
    ConnectionClosed,
    /// The peer closed the connection.
    ConnectionClosedByPeer,
    /// A command arrived without the body its id announces.
    MissingPdu,
    /// A frame could not be written out.
    WriteFailed,
    /// The keep-alive response never came: the link is considered dead.
    KeepAliveLost,
}

/// One session's book of record: its lifecycle state, its sequence-number
/// allocator, and the table of responses still owed. The driver owns it;
/// producers reach it only through the driver.
pub struct Session {
    state: SessionState,
    counter: SequenceCounter,
    pending: PendingTable,
}

impl Session {
    /// Spec-level accessors.
    pub closed spec fn spec_state(self) -> SessionState {
        self.state
    }

    pub closed spec fn spec_counter(self) -> SequenceCounter {
        self.counter
    }

    pub closed spec fn spec_pending(self) -> PendingTable {
        self.pending
    }

    /// The type's invariant: the parts are well formed, and every pending
    /// entry holds a number the allocator has already handed out. A fresh
    /// allocation therefore never collides with an outstanding request.
    pub open spec fn wf(self) -> bool {
        &&& self.spec_counter().wf()
        &&& self.spec_pending().wf()
        &&& forall|q: u32|
            #[trigger] self.spec_pending().spec_contains(q) ==> 1 <= q < self.spec_counter().spec_next()
    }

    /// A session over a freshly connected transport: open, nothing pending,
    /// the first sequence number still to be handed out.
    pub fn new() -> (r: Self)
        ensures
            r.wf(),
            r.spec_state() == SessionState::Open,
            r.spec_counter().spec_next() == 1,
            forall|q: u32| !(#[trigger] r.spec_pending().spec_contains(q)),
    {
        Self { state: SessionState::Open, counter: SequenceCounter::new(), pending: PendingTable::new() }
    }

    pub fn state(&self) -> (r: SessionState)
        ensures
            r == self.spec_state(),
    {
        self.state
    }

    /// How many responses are still owed.
    pub fn pending_len(&self) -> (r: usize)
        ensures
            r == self.spec_pending().view_set().len(),
    {
        self.pending.len()
    }

    /// Applies one lifecycle event.
    pub fn on_event(&mut self, e: SessionEvent)
        requires
            old(self).wf(),
        ensures
            final(self).wf(),
            final(self).spec_state() == spec_transition(old(self).spec_state(), e),
            final(self).spec_counter() == old(self).spec_counter(),
            final(self).spec_pending() == old(self).spec_pending(),
    {
        self.state = transition(self.state, e);
    }

    /// Starts one outgoing request: allocates its sequence number and
    /// registers the waiter, before anything reaches the wire. Refused with
    /// `ConnectionClosed`, immediately, when the session is closed or when
    /// no sequence number is left to allocate.
    pub fn begin_request(&mut self) -> (r: Result<u32, SessionError>)
        requires
            old(self).wf(),
        ensures
            final(self).wf(),
            final(self).spec_state() == old(self).spec_state(),
            match r {
                Ok(n) => {
                    &&& old(self).spec_state() != SessionState::Closed
                    &&& n == old(self).spec_counter().spec_next()
                    &&& !old(self).spec_pending().spec_contains(n)
                    &&& final(self).spec_counter().spec_next() == n + 1
                    &&& final(self).spec_pending().spec_contains(n)
                    &&& forall|q: u32|
                        q != n ==> (#[trigger] final(self).spec_pending().spec_contains(q) <==> old(
                            self,
                        ).spec_pending().spec_contains(q))
                },
                Err(e) => {
                    &&& e == SessionError::ConnectionClosed
                    &&& (old(self).spec_state() == SessionState::Closed || old(
                        self,
                    ).spec_counter().spec_next() == u32::MAX)
                    &&& *final(self) == *old(self)
                },
            },
    {
        if self.state == SessionState::Closed {
            return Err(SessionError::ConnectionClosed);
        }
        let n = match self.counter.allocate() {
            Some(n) => n,
            None => {
                return Err(SessionError::ConnectionClosed);
            },
        };
        proof {
            assert(!self.pending.spec_contains(n));
        }
        self.pending.insert(n);
        Ok(n)
    }

    /// Routes an arriving response; see [`PendingTable::correlate`].
    pub fn on_response(&mut self, response_sequence_number: u32) -> (r: Correlation)
        requires
            old(self).wf(),
        ensures
            final(self).wf(),
            final(self).spec_state() == old(self).spec_state(),
            final(self).spec_counter() == old(self).spec_counter(),
            r == Correlation::Matched <==> old(self).spec_pending().spec_contains(
                response_sequence_number,
            ),
            !final(self).spec_pending().spec_contains(response_sequence_number),
    {
        self.pending.correlate(response_sequence_number)
    }

    /// Abandons one outstanding request, after its deadline passed or its
    /// waiter was dropped; a late response then arrives as unsolicited.
    pub fn abandon_request(&mut self, sequence_number: u32)
        requires
            old(self).wf(),
        ensures
            final(self).wf(),
            final(self).spec_state() == old(self).spec_state(),
            final(self).spec_counter() == old(self).spec_counter(),
            !final(self).spec_pending().spec_contains(sequence_number),
            forall|q: u32|
                q != sequence_number ==> (#[trigger] final(self).spec_pending().spec_contains(q)
                    <==> old(self).spec_pending().spec_contains(q)),
    {
        self.pending.remove(sequence_number);
    }

    /// Tears the session down: the state becomes closed and every waiter
    /// still pending is failed, to be told `ConnectionClosed`.
    pub fn fail_all_pending(&mut self) -> (r: usize)
        requires
            old(self).wf(),
        ensures
            final(self).wf(),
            final(self).spec_state() == SessionState::Closed,
            r == old(self).spec_pending().view_set().len(),
            forall|q: u32| !(#[trigger] final(self).spec_pending().spec_contains(q)),
    {
        self.state = SessionState::Closed;
        let n = self.pending.len();
        self.pending.clear();
        n
    }
}

/// Whether a request's response is overdue: it is once its per-request
/// deadline has passed since the request was written.
pub fn response_overdue(now_ms: u64, sent_at_ms: u64, response_timeout_ms: u64) -> (r: bool)
    requires
        sent_at_ms <= now_ms,
    ensures
        r == (now_ms - sent_at_ms >= response_timeout_ms),
{
    now_ms - sent_at_ms >= response_timeout_ms
}

/// Whether a graceful close may finish: it may once every outstanding
/// request is answered or the drain deadline has elapsed.
pub fn close_drain_done(pending_len: usize, now_ms: u64, drain_deadline_ms: u64) -> (r: bool)
    ensures
        r == (pending_len == 0 || now_ms >= drain_deadline_ms),
{
    pending_len == 0 || now_ms >= drain_deadline_ms
}

/// A request whose response will be awaited: it occupies an entry in the
/// pending table under its sequence number until the response arrives.
#[derive(Debug)]
pub struct RegisteredRequest {
    /// The sequence number the pending entry is kept under.
    pub sequence_number: u32,
    /// The command to write.
    pub command: Command,
}

/// A request written without a response expectation, such as a
/// `generic_nack` or a response to a server push.
#[derive(Debug)]
pub struct UnregisteredRequest {
    /// The command to write.
    pub command: Command,
}

/// A request to send, with or without a response expectation.
#[derive(Debug)]
pub enum Request {
    Registered(RegisteredRequest),
    Unregistered(UnregisteredRequest),
}

/// A graceful-close request: the driver stops taking requests, flushes
/// what is queued within the drain deadline, and terminates.
#[derive(Debug, Copy, Clone, PartialEq, Eq, Hash, Structural)]
pub struct CloseRequest {
    /// How long the drain may take, in milliseconds.
    pub drain_deadline_ms: u64,
}

/// A request to hand back the sequence numbers that still await responses.
#[derive(Debug, Copy, Clone, PartialEq, Eq, Hash, Structural)]
pub struct PendingResponses {
    /// How many entries the reply may carry at most.
    pub limit: usize,
}

/// What a producer handle asks of the connection driver.
#[derive(Debug)]
pub enum Action {
    /// Sends a request to the server.
    Request(Request),
    /// Removes a pending response from the connection's pending responses
    /// table, after the waiter was dropped.
    Remove(u32),
    /// The connection stops reading, stops time keeping, closes the
    /// requests channel, flushes pending requests and terminates.
    Close(CloseRequest),
    /// Sent from the client to the connection to check that the connection
    /// is still there to answer.
    Ping,
    /// Retrieves the pending responses from the connection.
    PendingResponses(PendingResponses),
}

impl Action {
    /// Wraps a request whose response will be awaited.
    pub fn registered_request(request: RegisteredRequest) -> (r: Self)
        ensures
            r matches Action::Request(q) && q matches Request::Registered(g) && g
                == request,
    {
        Self::Request(Request::Registered(request))
    }

    /// Wraps a request written without a response expectation.
    pub fn unregistered_request(request: UnregisteredRequest) -> (r: Self)
        ensures
            r matches Action::Request(q) && q matches Request::Unregistered(g) && g
                == request,
    {
        Self::Request(Request::Unregistered(request))
    }
}

} // verus!
