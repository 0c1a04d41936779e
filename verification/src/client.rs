//! The client: what an application asks of its session, and what the reader
//! of the transport reports to it. Nothing here waits or performs I/O; each
//! operation says what is to be sent and which completions are to fire.

use vstd::prelude::*;
use crate::common::{dict_insert, Arg, WampDict, WampId, WampList, WampUri};
use crate::error::WampError;
use crate::ident::{successor, IdAllocator};
use crate::message::{decode, decoded, Message, Payload, INVOCATION};
use crate::message::{CALL, PUBLISH, REGISTER, SUBSCRIBE, UNREGISTER, UNSUBSCRIBE};
use crate::session::{
    all_lost, awaits, deadline_of, dropped, ended, error_step, event_step, fails, goodbye_step,
    in_session, invocation_step, is_farewell, is_farewell_reply, is_no_such_registration,
    join_error, joining, kind_of, lemma_wf_kept, lemma_wf_with_fresh, lost, model_wf, pending,
    published_step, registered_step, result_step, step, subscribed_step, unregistered_step,
    unsubscribed_step,
};
use crate::session::{admitted, after_admission, is_reply, publish_options};
use crate::session::{Admission, HandlerResult};
use crate::table::entry_of;
use crate::session::{
    Binding, ClientModel, ClientState, Effect, Failure, Outcome, PendingRequest, RequestKind,
};
use crate::table::{holds, IdTable};

verus! {

/// The session of one client with one router.
pub struct Client {
    state: ClientState,
    ids: IdAllocator,
    calls: IdTable<PendingRequest<()>>,
    registers: IdTable<PendingRequest<Binding>>,
    unregisters: IdTable<PendingRequest<WampId>>,
    subscribes: IdTable<PendingRequest<Binding>>,
    unsubscribes: IdTable<PendingRequest<WampId>>,
    publishes: IdTable<PendingRequest<()>>,
    subscriptions: IdTable<Binding>,
    registrations: IdTable<Binding>,
    invocations: IdTable<()>,
}

impl View for Client {
    type V = ClientModel;

    closed spec fn view(&self) -> ClientModel {
        ClientModel {
            state: self.state,
            last_id: self.ids.last(),
            calls: self.calls@,
            registers: self.registers@,
            unregisters: self.unregisters@,
            subscribes: self.subscribes@,
            unsubscribes: self.unsubscribes@,
            publishes: self.publishes@,
            subscriptions: self.subscriptions@,
            registrations: self.registrations@,
            invocations: self.invocations@,
        }
    }
}

/// Resolves every request of a table with the loss of the session.
fn flush<T>(table: &mut IdTable<PendingRequest<T>>, effects: &mut Vec<Effect>)
    ensures
        final(table)@ == Seq::<(WampId, PendingRequest<T>)>::empty(),
        final(table).wf(),
        final(effects)@ == old(effects)@ + lost(old(table)@),
{
    let entries = table.drain();
    let mut i: usize = 0;
    while i < entries.len()
        invariant
            i <= entries.len(),
            effects@ == old(effects)@ + lost(entries@.take(i as int)),
        decreases entries.len() - i,
    {
        effects.push(
            Effect::Resolve {
                request: entries[i].0,
                outcome: Outcome::Failed(WampError::SessionLost),
            },
        );
        proof {
            assert(lost(entries@.take(i + 1)) =~= lost(entries@.take(i as int)).push(
                Effect::Resolve {
                    request: entries@[i as int].0,
                    outcome: Outcome::Failed(WampError::SessionLost),
                },
            ));
        }
        i += 1;
    }
    assert(entries@.take(i as int) == entries@);
}

/// The error that ends a connect when the session fails for a reason.
fn join_error_of(failure: Failure) -> (r: WampError)
    ensures
        r == join_error(failure),
{
    match failure {
        Failure::Aborted => WampError::ConnectionFailed,
        Failure::ProtocolViolation => WampError::ProtocolViolation,
        Failure::ConnectionFailed => WampError::ConnectionFailed,
        Failure::ReceiveFailed => WampError::ReceiveFailed,
    }
}

impl Client {
    /// Whether the client is in order.
    pub open spec fn wf(&self) -> bool {
        model_wf(self@)
    }

    /// A client that has not asked for a connection.
    pub fn new() -> (r: Self)
        ensures
            r.wf(),
            r@ == ended(r@, ClientState::Disconnected),
            r@.last_id == 0,
    {
        Client {
            state: ClientState::Disconnected,
            ids: IdAllocator::new(),
            calls: IdTable::new(),
            registers: IdTable::new(),
            unregisters: IdTable::new(),
            subscribes: IdTable::new(),
            unsubscribes: IdTable::new(),
            publishes: IdTable::new(),
            subscriptions: IdTable::new(),
            registrations: IdTable::new(),
            invocations: IdTable::new(),
        }
    }

    /// A client that has not asked for a connection and whose first request
    /// gets the identifier after `last`.
    pub fn starting_after(last: WampId) -> (r: Self)
        ensures
            r.wf(),
            r@ == ended(r@, ClientState::Disconnected),
            r@.last_id == last,
    {
        Client {
            state: ClientState::Disconnected,
            ids: IdAllocator::starting_after(last),
            calls: IdTable::new(),
            registers: IdTable::new(),
            unregisters: IdTable::new(),
            subscribes: IdTable::new(),
            unsubscribes: IdTable::new(),
            publishes: IdTable::new(),
            subscriptions: IdTable::new(),
            registrations: IdTable::new(),
            invocations: IdTable::new(),
        }
    }

    /// The state of the session.
    pub fn state(&self) -> (r: ClientState)
        ensures
            r == self@.state,
    {
        self.state
    }

    /// Ends the session in a state: every request is lost, and every handler
    /// and invocation is forgotten.
    fn end_session(&mut self, state: ClientState, effects: &mut Vec<Effect>)
        ensures
            final(self)@ == ended(old(self)@, state),
            final(self).wf(),
            final(effects)@ == old(effects)@ + all_lost(old(self)@),
    {
        self.state = state;
        flush(&mut self.calls, effects);
        flush(&mut self.registers, effects);
        flush(&mut self.unregisters, effects);
        flush(&mut self.subscribes, effects);
        flush(&mut self.unsubscribes, effects);
        flush(&mut self.publishes, effects);
        self.subscriptions.drain();
        self.registrations.drain();
        self.invocations.drain();
    }

    /// Fails the session: for a protocol violation, for bytes that are no
    /// message, or for a transport that has stopped. The client ends in the
    /// failed state whatever state it was in.
    pub fn fail(&mut self, failure: Failure) -> (effects: Vec<Effect>)
        ensures
            final(self).wf(),
            fails(old(self)@, failure, final(self)@, effects@),
    {
        let mut effects: Vec<Effect> = Vec::new();
        if matches!(self.state, ClientState::Connecting | ClientState::Establishing) {
            effects.push(Effect::JoinFailed(join_error_of(failure)));
        }
        let leaving = matches!(self.state, ClientState::Closing);
        self.end_session(ClientState::Failed(failure), &mut effects);
        if leaving {
            effects.push(Effect::Left);
        }
        effects.push(Effect::CloseTransport);
        assert(effects@ =~= crate::session::failure_effects(old(self)@, failure));
        effects
    }

    /// Asks for a connection. Only a client that has never connected may
    /// proceed; while a connect is under way a second caller waits for it.
    pub fn connect(&mut self) -> (r: Admission)
        requires
            old(self).wf(),
        ensures
            final(self).wf(),
            old(self)@.state is Disconnected ==> r == Admission::Proceed && final(self)@
                == (ClientModel { state: ClientState::Connecting, ..old(self)@ }),
            joining(old(self)@.state) ==> r == Admission::Wait && final(self)@ == old(self)@,
            !(old(self)@.state is Disconnected) && !joining(old(self)@.state) ==> r
                == Admission::Refused && final(self)@ == old(self)@,
    {
        match self.state {
            ClientState::Disconnected => {
                self.state = ClientState::Connecting;
                proof {
                    lemma_wf_kept(old(self)@, self@);
                }
                Admission::Proceed
            },
            ClientState::Connecting => Admission::Wait,
            ClientState::Establishing => Admission::Wait,
            _ => Admission::Refused,
        }
    }

    /// Greets the router once the transport is connected: gives the greeting
    /// to send. In any other state there is no greeting and nothing changes.
    pub fn hello(&mut self, realm: WampUri, details: WampDict) -> (r: Option<Message>)
        requires
            old(self).wf(),
        ensures
            final(self).wf(),
            old(self)@.state is Connecting ==> r == Some(Message::Hello { realm, details })
                && final(self)@ == (ClientModel {
                state: ClientState::Establishing,
                ..old(self)@
            }),
            !(old(self)@.state is Connecting) ==> r is None && final(self)@ == old(self)@,
    {
        if matches!(self.state, ClientState::Connecting) {
            self.state = ClientState::Establishing;
            proof {
                lemma_wf_kept(old(self)@, self@);
            }
            Some(Message::Hello { realm, details })
        } else {
            None
        }
    }

    /// Leaves the session. In an established session this gives the farewell
    /// to send; while the client is already leaving there is nothing to send
    /// and the caller awaits the same outcome; in any other state there is
    /// no session to leave.
    pub fn disconnect(&mut self) -> (r: Result<Option<Message>, WampError>)
        requires
            old(self).wf(),
        ensures
            final(self).wf(),
            old(self)@.state is Established ==> (r matches Ok(Some(m)) && is_farewell(m))
                && final(self)@ == (ClientModel { state: ClientState::Closing, ..old(self)@ }),
            old(self)@.state is Closing ==> r == Ok::<Option<Message>, WampError>(None)
                && final(self)@ == old(self)@,
            !in_session(old(self)@.state) ==> r == Err::<Option<Message>, WampError>(
                WampError::NotConnected,
            ) && final(self)@ == old(self)@,
    {
        match self.state {
            ClientState::Established(_) => {
                self.state = ClientState::Closing;
                proof {
                    lemma_wf_kept(old(self)@, self@);
                }
                Ok(
                    Some(
                        Message::Goodbye {
                            details: Vec::new(),
                            reason: "wamp.close.close_realm".to_owned(),
                        },
                    ),
                )
            },
            ClientState::Closing => Ok(None),
            _ => Err(WampError::NotConnected),
        }
    }

    /// Gives up waiting for the router to answer the farewell: the session
    /// is closed, every request is lost, and the disconnect completes. When
    /// the client is not leaving nothing changes.
    pub fn close_timeout(&mut self) -> (effects: Vec<Effect>)
        requires
            old(self).wf(),
        ensures
            final(self).wf(),
            old(self)@.state is Closing ==> final(self)@ == ended(old(self)@, ClientState::Closed)
                && effects@ == all_lost(old(self)@) + seq![Effect::Left],
            !(old(self)@.state is Closing) ==> final(self)@ == old(self)@ && effects@.len() == 0,
    {
        let mut effects: Vec<Effect> = Vec::new();
        if matches!(self.state, ClientState::Closing) {
            self.end_session(ClientState::Closed, &mut effects);
            effects.push(Effect::Left);
        }
        effects
    }

    /// Whether a request of any kind awaits its answer under the identifier.
    pub fn is_pending(&self, id: WampId) -> (r: bool)
        requires
            self.wf(),
        ensures
            r == pending(self@, id),
    {
        let r = self.calls.contains(id) || self.registers.contains(id) || self.unregisters.contains(
            id,
        ) || self.subscribes.contains(id) || self.unsubscribes.contains(id)
            || self.publishes.contains(id);
        r
    }

    /// Admits a new request: checks that the session is established and
    /// hands out the next identifier, unless a request still awaits its
    /// answer under it.
    fn open_request(&mut self) -> (r: Result<WampId, WampError>)
        requires
            old(self).wf(),
        ensures
            final(self).wf(),
            r == admitted(old(self)@),
            final(self)@ == after_admission(old(self)@),
    {
        if !matches!(self.state, ClientState::Established(_)) {
            return Err(WampError::NotConnected);
        }
        let id = self.ids.next();
        proof {
            lemma_wf_kept(old(self)@, self@);
        }
        if self.is_pending(id) {
            Err(WampError::DuplicateRequestId)
        } else {
            Ok(id)
        }
    }

    /// Calls a procedure: gives the call to send, and keeps the request until
    /// it is answered, given up or lost. Outside an established session the
    /// call fails and nothing is to be sent.
    pub fn call(
        &mut self,
        procedure: WampUri,
        payload: Payload,
        options: WampDict,
        deadline: Option<u64>,
    ) -> (r: Result<Message, WampError>)
        requires
            old(self).wf(),
        ensures
            final(self).wf(),
            !(old(self)@.state is Established) ==> r == Err::<Message, WampError>(
                WampError::NotConnected,
            ) && final(self)@ == old(self)@,
            match admitted(old(self)@) {
                Ok(request) => r == Ok::<Message, WampError>(
                    Message::Call { request, options, procedure, payload },
                ) && final(self)@ == (ClientModel {
                    calls: old(self)@.calls.push(
                        (request, PendingRequest { deadline, detail: () }),
                    ),
                    ..after_admission(old(self)@)
                }),
                Err(e) => r == Err::<Message, WampError>(e) && final(self)@ == after_admission(
                    old(self)@,
                ),
            },
    {
        let request = match self.open_request() {
            Ok(request) => request,
            Err(e) => {
                return Err(e);
            },
        };
        let ghost admitted = self@;
        let _ = self.calls.insert(request, PendingRequest { deadline, detail: () });
        proof {
            lemma_wf_with_fresh(admitted, self@, RequestKind::Call, request);
        }
        Ok(Message::Call { request, options, procedure, payload })
    }

    /// Registers a procedure: gives the request to send, and keeps the
    /// handler with it until the router confirms the registration.
    pub fn register(
        &mut self,
        procedure: WampUri,
        handler: u64,
        options: WampDict,
        deadline: Option<u64>,
    ) -> (r: Result<Message, WampError>)
        requires
            old(self).wf(),
        ensures
            final(self).wf(),
            !(old(self)@.state is Established) ==> r == Err::<Message, WampError>(
                WampError::NotConnected,
            ) && final(self)@ == old(self)@,
            match admitted(old(self)@) {
                Ok(request) => (r matches Ok(
                    Message::Register { request: sent, options: o, procedure: p },
                ) && sent == request && o == options && p@ == procedure@) && final(self)@
                    == (ClientModel {
                    registers: old(self)@.registers.push(
                        (
                            request,
                            PendingRequest {
                                deadline,
                                detail: Binding { uri: procedure, handler },
                            },
                        ),
                    ),
                    ..after_admission(old(self)@)
                }),
                Err(e) => r == Err::<Message, WampError>(e) && final(self)@ == after_admission(
                    old(self)@,
                ),
            },
    {
        let request = match self.open_request() {
            Ok(request) => request,
            Err(e) => {
                return Err(e);
            },
        };
        let ghost admitted = self@;
        let sent = procedure.clone();
        let _ = self.registers.insert(
            request,
            PendingRequest { deadline, detail: Binding { uri: procedure, handler } },
        );
        proof {
            lemma_wf_with_fresh(admitted, self@, RequestKind::Register, request);
        }
        Ok(Message::Register { request, options, procedure: sent })
    }

    /// Removes a registration: gives the request to send, and keeps it until
    /// the router confirms.
    pub fn unregister(&mut self, registration: WampId, deadline: Option<u64>) -> (r: Result<
        Message,
        WampError,
    >)
        requires
            old(self).wf(),
        ensures
            final(self).wf(),
            !(old(self)@.state is Established) ==> r == Err::<Message, WampError>(
                WampError::NotConnected,
            ) && final(self)@ == old(self)@,
            match admitted(old(self)@) {
                Ok(request) => r == Ok::<Message, WampError>(
                    Message::Unregister { request, registration },
                ) && final(self)@ == (ClientModel {
                    unregisters: old(self)@.unregisters.push(
                        (request, PendingRequest { deadline, detail: registration }),
                    ),
                    ..after_admission(old(self)@)
                }),
                Err(e) => r == Err::<Message, WampError>(e) && final(self)@ == after_admission(
                    old(self)@,
                ),
            },
    {
        let request = match self.open_request() {
            Ok(request) => request,
            Err(e) => {
                return Err(e);
            },
        };
        let ghost admitted = self@;
        let _ = self.unregisters.insert(request, PendingRequest { deadline, detail: registration });
        proof {
            lemma_wf_with_fresh(admitted, self@, RequestKind::Unregister, request);
        }
        Ok(Message::Unregister { request, registration })
    }

    /// Subscribes to a topic: gives the request to send, and keeps the
    /// handler with it until the router confirms the subscription.
    pub fn subscribe(
        &mut self,
        topic: WampUri,
        handler: u64,
        options: WampDict,
        deadline: Option<u64>,
    ) -> (r: Result<Message, WampError>)
        requires
            old(self).wf(),
        ensures
            final(self).wf(),
            !(old(self)@.state is Established) ==> r == Err::<Message, WampError>(
                WampError::NotConnected,
            ) && final(self)@ == old(self)@,
            match admitted(old(self)@) {
                Ok(request) => (r matches Ok(
                    Message::Subscribe { request: sent, options: o, topic: t },
                ) && sent == request && o == options && t@ == topic@) && final(self)@
                    == (ClientModel {
                    subscribes: old(self)@.subscribes.push(
                        (
                            request,
                            PendingRequest { deadline, detail: Binding { uri: topic, handler } },
                        ),
                    ),
                    ..after_admission(old(self)@)
                }),
                Err(e) => r == Err::<Message, WampError>(e) && final(self)@ == after_admission(
                    old(self)@,
                ),
            },
    {
        let request = match self.open_request() {
            Ok(request) => request,
            Err(e) => {
                return Err(e);
            },
        };
        let ghost admitted = self@;
        let sent = topic.clone();
        let _ = self.subscribes.insert(
            request,
            PendingRequest { deadline, detail: Binding { uri: topic, handler } },
        );
        proof {
            lemma_wf_with_fresh(admitted, self@, RequestKind::Subscribe, request);
        }
        Ok(Message::Subscribe { request, options, topic: sent })
    }

    /// Removes a subscription: gives the request to send, and keeps it until
    /// the router confirms.
    pub fn unsubscribe(&mut self, subscription: WampId, deadline: Option<u64>) -> (r: Result<
        Message,
        WampError,
    >)
        requires
            old(self).wf(),
        ensures
            final(self).wf(),
            !(old(self)@.state is Established) ==> r == Err::<Message, WampError>(
                WampError::NotConnected,
            ) && final(self)@ == old(self)@,
            match admitted(old(self)@) {
                Ok(request) => r == Ok::<Message, WampError>(
                    Message::Unsubscribe { request, subscription },
                ) && final(self)@ == (ClientModel {
                    unsubscribes: old(self)@.unsubscribes.push(
                        (request, PendingRequest { deadline, detail: subscription }),
                    ),
                    ..after_admission(old(self)@)
                }),
                Err(e) => r == Err::<Message, WampError>(e) && final(self)@ == after_admission(
                    old(self)@,
                ),
            },
    {
        let request = match self.open_request() {
            Ok(request) => request,
            Err(e) => {
                return Err(e);
            },
        };
        let ghost admitted = self@;
        let _ = self.unsubscribes.insert(
            request,
            PendingRequest { deadline, detail: subscription },
        );
        proof {
            lemma_wf_with_fresh(admitted, self@, RequestKind::Unsubscribe, request);
        }
        Ok(Message::Unsubscribe { request, subscription })
    }

    /// Publishes an event: gives the publication to send. One that asks for
    /// an acknowledgement says so in its options and is kept until the router
    /// acknowledges it; one that does not is kept nowhere.
    pub fn publish(
        &mut self,
        topic: WampUri,
        payload: Payload,
        options: WampDict,
        acknowledge: bool,
        deadline: Option<u64>,
    ) -> (r: Result<Message, WampError>)
        requires
            old(self).wf(),
        ensures
            final(self).wf(),
            !(old(self)@.state is Established) ==> r == Err::<Message, WampError>(
                WampError::NotConnected,
            ) && final(self)@ == old(self)@,
            match admitted(old(self)@) {
                Ok(request) => (r matches Ok(
                    Message::Publish { request: sent, options: o, topic: t, payload: p },
                ) && sent == request && publish_options(options, acknowledge, o) && t == topic && p
                    == payload) && final(self)@ == (if acknowledge {
                    ClientModel {
                        publishes: old(self)@.publishes.push(
                            (request, PendingRequest { deadline, detail: () }),
                        ),
                        ..after_admission(old(self)@)
                    }
                } else {
                    after_admission(old(self)@)
                }),
                Err(e) => r == Err::<Message, WampError>(e) && final(self)@ == after_admission(
                    old(self)@,
                ),
            },
    {
        let request = match self.open_request() {
            Ok(request) => request,
            Err(e) => {
                return Err(e);
            },
        };
        let mut options = options;
        if acknowledge {
            let ghost admitted = self@;
            dict_insert(&mut options, "acknowledge".to_owned(), Arg::Bool(true));
            let _ = self.publishes.insert(request, PendingRequest { deadline, detail: () });
            proof {
                lemma_wf_with_fresh(admitted, self@, RequestKind::Publish, request);
            }
        }
        Ok(Message::Publish { request, options, topic, payload })
    }

    /// The deadline of the request of a kind under the identifier, if that
    /// request awaits its answer and has a deadline.
    fn deadline(&self, kind: RequestKind, id: WampId) -> (r: Option<u64>)
        requires
            self.wf(),
        ensures
            r == deadline_of(self@, kind, id),
    {
        match kind {
            RequestKind::Call => match self.calls.get(id) {
                Some(entry) => entry.deadline,
                None => None,
            },
            RequestKind::Register => match self.registers.get(id) {
                Some(entry) => entry.deadline,
                None => None,
            },
            RequestKind::Unregister => match self.unregisters.get(id) {
                Some(entry) => entry.deadline,
                None => None,
            },
            RequestKind::Subscribe => match self.subscribes.get(id) {
                Some(entry) => entry.deadline,
                None => None,
            },
            RequestKind::Unsubscribe => match self.unsubscribes.get(id) {
                Some(entry) => entry.deadline,
                None => None,
            },
            RequestKind::Publish => match self.publishes.get(id) {
                Some(entry) => entry.deadline,
                None => None,
            },
        }
    }

    /// Gives a request up at a time: if it still awaits its answer and its
    /// deadline has come, it leaves its table and resolves with a timeout.
    /// A request that has been resolved, has no deadline or has time left
    /// stays as it is, and nothing is to be done.
    pub fn timeout(&mut self, kind: RequestKind, request: WampId, now: u64) -> (r: Option<Effect>)
        requires
            old(self).wf(),
        ensures
            final(self).wf(),
            match deadline_of(old(self)@, kind, request) {
                Some(deadline) if deadline <= now => final(self)@ == dropped(
                    old(self)@,
                    kind,
                    request,
                ) && r == Some(
                    Effect::Resolve { request, outcome: Outcome::Failed(WampError::Timeout) },
                ) && !awaits(final(self)@, kind, request),
                _ => final(self)@ == old(self)@ && r is None,
            },
    {
        match self.deadline(kind, request) {
            Some(deadline) => {
                if deadline <= now {
                    self.drop_request(kind, request);
                    Some(Effect::Resolve { request, outcome: Outcome::Failed(WampError::Timeout) })
                } else {
                    None
                }
            },
            None => None,
        }
    }

    /// Forgets a request whose message could not be sent. Tells whether the
    /// request still awaited its answer.
    pub fn abandon(&mut self, kind: RequestKind, request: WampId) -> (found: bool)
        requires
            old(self).wf(),
        ensures
            final(self).wf(),
            found == awaits(old(self)@, kind, request),
            final(self)@ == dropped(old(self)@, kind, request),
            !awaits(final(self)@, kind, request),
    {
        self.drop_request(kind, request)
    }

    /// Takes what the handler of an invocation came back with: gives the
    /// answer to send, once. For an invocation that is not running, because
    /// it was answered or the session has ended, there is no answer.
    pub fn finish_invocation(&mut self, request: WampId, result: HandlerResult) -> (r: Option<
        Message,
    >)
        requires
            old(self).wf(),
        ensures
            final(self).wf(),
            holds(old(self)@.invocations, request) ==> (r matches Some(m) && is_reply(
                m,
                request,
                result,
            )) && final(self)@ == (ClientModel {
                invocations: crate::table::without(old(self)@.invocations, request),
                ..old(self)@
            }),
            !holds(old(self)@.invocations, request) ==> r is None && final(self)@ == old(self)@,
            !holds(final(self)@.invocations, request),
    {
        match self.invocations.resolve(request) {
            Some(_) => {
                proof {
                    lemma_wf_kept(old(self)@, self@);
                }
                match result {
                    HandlerResult::Done(payload) => Some(
                        Message::Yield { request, options: Vec::new(), payload },
                    ),
                    HandlerResult::Failed { error, payload } => Some(
                        Message::Error {
                            request_type: INVOCATION,
                            request,
                            details: Vec::new(),
                            error,
                            payload,
                        },
                    ),
                }
            },
            None => None,
        }
    }

    /// Looks up the handler of a subscription. The table stays as it is.
    pub fn take_subscription(&self, subscription: WampId) -> (r: Option<&Binding>)
        requires
            self.wf(),
        ensures
            match entry_of(self@.subscriptions, subscription) {
                Some(binding) => r == Some(&binding),
                None => r is None,
            },
    {
        self.subscriptions.get(subscription)
    }

    /// Looks up the handler of a registration. The table stays as it is.
    pub fn take_registration(&self, registration: WampId) -> (r: Option<&Binding>)
        requires
            self.wf(),
        ensures
            match entry_of(self@.registrations, registration) {
                Some(binding) => r == Some(&binding),
                None => r is None,
            },
    {
        self.registrations.get(registration)
    }

    /// Takes the request of a kind under the identifier out of its table.
    fn drop_request(&mut self, kind: RequestKind, id: WampId) -> (found: bool)
        requires
            old(self).wf(),
        ensures
            final(self).wf(),
            found == awaits(old(self)@, kind, id),
            final(self)@ == dropped(old(self)@, kind, id),
            !awaits(final(self)@, kind, id),
    {
        let found = match kind {
            RequestKind::Call => self.calls.resolve(id).is_some(),
            RequestKind::Register => self.registers.resolve(id).is_some(),
            RequestKind::Unregister => self.unregisters.resolve(id).is_some(),
            RequestKind::Subscribe => self.subscribes.resolve(id).is_some(),
            RequestKind::Unsubscribe => self.unsubscribes.resolve(id).is_some(),
            RequestKind::Publish => self.publishes.resolve(id).is_some(),
        };
        proof {
            lemma_wf_kept(old(self)@, self@);
        }
        found
    }

    fn on_result(&mut self, request: WampId, details: WampDict, payload: Payload) -> (effects: Vec<
        Effect,
    >)
        requires
            old(self).wf(),
        ensures
            final(self).wf(),
            result_step(old(self)@, request, details, payload, final(self)@, effects@),
    {
        if self.drop_request(RequestKind::Call, request) {
            vec![Effect::Resolve { request, outcome: Outcome::Returned { details, payload } }]
        } else {
            vec![Effect::Orphaned { request }]
        }
    }

    fn on_error(
        &mut self,
        request_type: u64,
        request: WampId,
        details: WampDict,
        error: WampUri,
        payload: Payload,
    ) -> (effects: Vec<Effect>)
        requires
            old(self).wf(),
        ensures
            final(self).wf(),
            error_step(
                old(self)@,
                request_type,
                request,
                details,
                error,
                payload,
                final(self)@,
                effects@,
            ),
    {
        match request_kind(request_type) {
            Some(kind) => {
                if self.drop_request(kind, request) {
                    vec![
                        Effect::Resolve {
                            request,
                            outcome: Outcome::Failed(
                                WampError::RemoteError { error, details, payload },
                            ),
                        },
                    ]
                } else {
                    vec![Effect::Orphaned { request }]
                }
            },
            None => self.fail(Failure::ProtocolViolation),
        }
    }

    fn on_registered(&mut self, request: WampId, registration: WampId) -> (effects: Vec<Effect>)
        requires
            old(self).wf(),
        ensures
            final(self).wf(),
            registered_step(old(self)@, request, registration, final(self)@, effects@),
    {
        match self.registers.resolve(request) {
            Some(entry) => {
                self.registrations.put(registration, entry.detail);
                proof {
                    lemma_wf_kept(old(self)@, self@);
                }
                vec![Effect::Resolve { request, outcome: Outcome::Registered(registration) }]
            },
            None => vec![Effect::Orphaned { request }],
        }
    }

    fn on_unregistered(&mut self, request: WampId) -> (effects: Vec<Effect>)
        requires
            old(self).wf(),
        ensures
            final(self).wf(),
            unregistered_step(old(self)@, request, final(self)@, effects@),
    {
        match self.unregisters.resolve(request) {
            Some(entry) => {
                self.registrations.resolve(entry.detail);
                proof {
                    lemma_wf_kept(old(self)@, self@);
                }
                vec![Effect::Resolve { request, outcome: Outcome::Unregistered }]
            },
            None => vec![Effect::Orphaned { request }],
        }
    }

    fn on_subscribed(&mut self, request: WampId, subscription: WampId) -> (effects: Vec<Effect>)
        requires
            old(self).wf(),
        ensures
            final(self).wf(),
            subscribed_step(old(self)@, request, subscription, final(self)@, effects@),
    {
        match self.subscribes.resolve(request) {
            Some(entry) => {
                self.subscriptions.put(subscription, entry.detail);
                proof {
                    lemma_wf_kept(old(self)@, self@);
                }
                vec![Effect::Resolve { request, outcome: Outcome::Subscribed(subscription) }]
            },
            None => vec![Effect::Orphaned { request }],
        }
    }

    fn on_unsubscribed(&mut self, request: WampId) -> (effects: Vec<Effect>)
        requires
            old(self).wf(),
        ensures
            final(self).wf(),
            unsubscribed_step(old(self)@, request, final(self)@, effects@),
    {
        match self.unsubscribes.resolve(request) {
            Some(entry) => {
                self.subscriptions.resolve(entry.detail);
                proof {
                    lemma_wf_kept(old(self)@, self@);
                }
                vec![Effect::Resolve { request, outcome: Outcome::Unsubscribed }]
            },
            None => vec![Effect::Orphaned { request }],
        }
    }

    fn on_published(&mut self, request: WampId, publication: WampId) -> (effects: Vec<Effect>)
        requires
            old(self).wf(),
        ensures
            final(self).wf(),
            published_step(old(self)@, request, publication, final(self)@, effects@),
    {
        if self.drop_request(RequestKind::Publish, request) {
            vec![Effect::Resolve { request, outcome: Outcome::Published(publication) }]
        } else {
            vec![Effect::Orphaned { request }]
        }
    }

    fn on_event(
        &self,
        subscription: WampId,
        publication: WampId,
        details: WampDict,
        payload: Payload,
    ) -> (effects: Vec<Effect>)
        requires
            self.wf(),
        ensures
            event_step(self@, subscription, publication, details, payload, self@, effects@),
    {
        match self.take_subscription(subscription) {
            Some(binding) => vec![
                Effect::Notify { handler: binding.handler, publication, details, payload },
            ],
            None => Vec::new(),
        }
    }

    fn on_invocation(
        &mut self,
        request: WampId,
        registration: WampId,
        details: WampDict,
        payload: Payload,
    ) -> (effects: Vec<Effect>)
        requires
            old(self).wf(),
        ensures
            final(self).wf(),
            invocation_step(
                old(self)@,
                request,
                registration,
                details,
                payload,
                final(self)@,
                effects@,
            ),
    {
        let handler: Option<u64> = match self.take_registration(registration) {
            Some(binding) => Some(binding.handler),
            None => None,
        };
        match handler {
            Some(handler) => {
                match self.invocations.insert(request, ()) {
                    Ok(_) => {
                        proof {
                            lemma_wf_kept(old(self)@, self@);
                        }
                        vec![Effect::Invoke { handler, request, details, payload }]
                    },
                    Err(_) => self.fail(Failure::ProtocolViolation),
                }
            },
            None => vec![
                Effect::Send(
                    Message::Error {
                        request_type: INVOCATION,
                        request,
                        details: Vec::new(),
                        error: "wamp.error.no_such_registration".to_owned(),
                        payload: Payload::Empty,
                    },
                ),
            ],
        }
    }

    fn on_goodbye(&mut self) -> (effects: Vec<Effect>)
        requires
            old(self).wf(),
        ensures
            final(self).wf(),
            goodbye_step(old(self)@, final(self)@, effects@),
    {
        match self.state {
            ClientState::Established(_) => {
                let mut effects: Vec<Effect> = vec![
                    Effect::Send(
                        Message::Goodbye {
                            details: Vec::new(),
                            reason: "wamp.close.goodbye_and_out".to_owned(),
                        },
                    ),
                ];
                self.end_session(ClientState::Closed, &mut effects);
                assert(effects@.skip(1) =~= all_lost(old(self)@));
                effects
            },
            ClientState::Closing => {
                let mut effects: Vec<Effect> = Vec::new();
                self.end_session(ClientState::Closed, &mut effects);
                effects.push(Effect::Left);
                assert(effects@ =~= all_lost(old(self)@) + seq![Effect::Left]);
                effects
            },
            _ => self.fail(Failure::ProtocolViolation),
        }
    }

    /// Takes one inbound message: the reader of the transport hands each
    /// decoded message here, in the order of arrival.
    pub fn dispatch(&mut self, msg: Message) -> (effects: Vec<Effect>)
        requires
            old(self).wf(),
        ensures
            final(self).wf(),
            step(old(self)@, msg, final(self)@, effects@),
    {
        match msg {
            Message::Welcome { session, details } => {
                if matches!(self.state, ClientState::Establishing) {
                    self.state = ClientState::Established(session);
                    proof {
                        lemma_wf_kept(old(self)@, self@);
                    }
                    vec![Effect::Joined(session)]
                } else {
                    self.fail(Failure::ProtocolViolation)
                }
            },
            Message::Abort { details, reason } => {
                if matches!(self.state, ClientState::Establishing) {
                    let mut effects: Vec<Effect> = vec![
                        Effect::JoinFailed(
                            WampError::RemoteError {
                                error: reason,
                                details,
                                payload: Payload::Empty,
                            },
                        ),
                    ];
                    self.end_session(ClientState::Failed(Failure::Aborted), &mut effects);
                    effects
                } else {
                    self.fail(Failure::ProtocolViolation)
                }
            },
            Message::Goodbye { details, reason } => self.on_goodbye(),
            Message::Error { request_type, request, details, error, payload } => {
                self.on_error(request_type, request, details, error, payload)
            },
            Message::CallResult { request, details, payload } => {
                self.on_result(request, details, payload)
            },
            Message::Registered { request, registration } => {
                self.on_registered(request, registration)
            },
            Message::Unregistered { request } => self.on_unregistered(request),
            Message::Subscribed { request, subscription } => {
                self.on_subscribed(request, subscription)
            },
            Message::Unsubscribed { request } => self.on_unsubscribed(request),
            Message::Published { request, publication } => self.on_published(request, publication),
            Message::Event { subscription, publication, details, payload } => {
                self.on_event(subscription, publication, details, payload)
            },
            Message::Invocation { request, registration, details, payload } => {
                self.on_invocation(request, registration, details, payload)
            },
            _ => self.fail(Failure::ProtocolViolation),
        }
    }
}

impl Client {
    /// Takes one inbound frame in its positional form: a list of values that
    /// is a message is dispatched, and one that is none fails the session as
    /// a protocol violation.
    pub fn receive(&mut self, fields: WampList) -> (effects: Vec<Effect>)
        requires
            old(self).wf(),
        ensures
            final(self).wf(),
            match decoded(fields@) {
                Ok(msg) => step(old(self)@, msg, final(self)@, effects@),
                Err(_) => fails(old(self)@, Failure::ProtocolViolation, final(self)@, effects@),
            },
    {
        match decode(fields) {
            Ok(msg) => self.dispatch(msg),
            Err(_) => self.fail(Failure::ProtocolViolation),
        }
    }
}

/// The kind of request that a type code in an error message names.
pub fn request_kind(code: u64) -> (r: Option<RequestKind>)
    ensures
        r == kind_of(code),
{
    if code == CALL {
        Some(RequestKind::Call)
    } else if code == REGISTER {
        Some(RequestKind::Register)
    } else if code == UNREGISTER {
        Some(RequestKind::Unregister)
    } else if code == SUBSCRIBE {
        Some(RequestKind::Subscribe)
    } else if code == UNSUBSCRIBE {
        Some(RequestKind::Unsubscribe)
    } else if code == PUBLISH {
        Some(RequestKind::Publish)
    } else {
        None
    }
}

} // verus!
