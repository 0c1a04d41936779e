//! The session of a client as a state machine: its states, what it keeps
//! about requests and handlers, and what each inbound message does to it.

use vstd::prelude::*;
use crate::common::{dict_model, with_entry};
use crate::common::{ArgModel, WampDict, WampId, WampUri};
use crate::error::WampError;
use crate::ident::successor;
use crate::message::{Message, Payload};
use crate::message::{CALL, INVOCATION, PUBLISH, REGISTER, SUBSCRIBE, UNREGISTER, UNSUBSCRIBE};
use crate::table::{distinct_ids, entry_of, holds, ids_of, replaced, without};
use crate::table::{lemma_place_is_unique, lemma_without_holds, lemma_without_keeps_others};

verus! {

/// Why a session failed.
#[derive(Clone, Copy, Debug, PartialEq, Eq, Structural)]
pub enum Failure {
    /// The router refused the session.
    Aborted,
    /// The peer broke the protocol, or its bytes were no message.
    ProtocolViolation,
    /// The transport could not be connected.
    ConnectionFailed,
    /// The transport stopped delivering frames.
    ReceiveFailed,
}

/// Where a client stands in the life of its session.
#[derive(Clone, Copy, Debug, PartialEq, Eq, Structural)]
pub enum ClientState {
    /// No connection has been asked for.
    Disconnected,
    /// The transport is being connected.
    Connecting,
    /// The greeting is sent; the router has yet to welcome or refuse.
    Establishing,
    /// The router has welcomed the client to the session with this identifier.
    Established(WampId),
    /// The farewell is sent; the router has yet to answer it.
    Closing,
    /// The session has ended in good order.
    Closed,
    /// The session has ended in failure.
    Failed(Failure),
}

/// Whether there is a session to leave in a state.
pub open spec fn in_session(state: ClientState) -> bool {
    state is Established || state is Closing
}

/// Whether a caller awaits the outcome of a connect in a state.
pub open spec fn joining(state: ClientState) -> bool {
    state is Connecting || state is Establishing
}

/// The error that ends a connect when the session fails for a reason.
pub open spec fn join_error(failure: Failure) -> WampError {
    match failure {
        Failure::Aborted => WampError::ConnectionFailed,
        Failure::ProtocolViolation => WampError::ProtocolViolation,
        Failure::ConnectionFailed => WampError::ConnectionFailed,
        Failure::ReceiveFailed => WampError::ReceiveFailed,
    }
}

/// A handler that the application keeps under a key of its choosing, and the
/// topic or procedure that it serves.
#[derive(Debug, PartialEq, Eq)]
pub struct Binding {
    pub uri: WampUri,
    pub handler: u64,
}

/// A request that awaits its answer.
#[derive(Debug, PartialEq, Eq)]
pub struct PendingRequest<T> {
    /// The time after which the request is given up, if it has one.
    pub deadline: Option<u64>,
    /// What the answer will be needed for.
    pub detail: T,
}

/// The kinds of request that await an answer.
#[derive(Clone, Copy, Debug, PartialEq, Eq, Structural)]
pub enum RequestKind {
    Call,
    Register,
    Unregister,
    Subscribe,
    Unsubscribe,
    Publish,
}

/// The kind of request that a type code in an error message names.
pub open spec fn kind_of(code: u64) -> Option<RequestKind> {
    if code == CALL {
        Some(RequestKind::Call)
    } else if code == REGISTER {
        Some(RequestKind::Register)
    } else if code == UNREGISTER {
        Some(RequestKind::Unregister)
    } else if code == SUBSCRIBE {
        Some(RequestKind::Subscribe)
    } else if code == UNSUBSCRIBE {
        Some(RequestKind::Unsubscribe)
    } else if code == PUBLISH {
        Some(RequestKind::Publish)
    } else {
        None
    }
}

/// What a request resolves with.
#[derive(Debug, PartialEq, Eq)]
pub enum Outcome {
    /// The result of a call.
    Returned { details: WampDict, payload: Payload },
    /// The procedure is registered under the identifier.
    Registered(WampId),
    /// The registration is gone.
    Unregistered,
    /// The topic is subscribed under the identifier.
    Subscribed(WampId),
    /// The subscription is gone.
    Unsubscribed,
    /// The event is published under the identifier.
    Published(WampId),
    /// The request failed.
    Failed(WampError),
}

/// What the application has to do after a step of the session.
#[derive(Debug, PartialEq, Eq)]
pub enum Effect {
    /// Encode the message and write it to the transport.
    Send(Message),
    /// Complete the connect with the identifier of the session.
    Joined(WampId),
    /// Fail the connect with the error.
    JoinFailed(WampError),
    /// Complete the disconnect.
    Left,
    /// Complete the request with the outcome.
    Resolve { request: WampId, outcome: Outcome },
    /// Hand the event to the handler of the subscription, off the reader's
    /// path.
    Notify { handler: u64, publication: WampId, details: WampDict, payload: Payload },
    /// Run the handler of the registration, off the reader's path, and
    /// report what it returned under the identifier of the invocation.
    Invoke { handler: u64, request: WampId, details: WampDict, payload: Payload },
    /// Note that an answer came for a request that awaits none, and drop it.
    Orphaned { request: WampId },
    /// Close the transport.
    CloseTransport,
}

/// What a client holds.
pub struct ClientModel {
    pub state: ClientState,
    /// The request identifier handed out last; 0 before the first.
    pub last_id: u64,
    pub calls: Seq<(WampId, PendingRequest<()>)>,
    pub registers: Seq<(WampId, PendingRequest<Binding>)>,
    pub unregisters: Seq<(WampId, PendingRequest<WampId>)>,
    pub subscribes: Seq<(WampId, PendingRequest<Binding>)>,
    pub unsubscribes: Seq<(WampId, PendingRequest<WampId>)>,
    pub publishes: Seq<(WampId, PendingRequest<()>)>,
    /// The handlers of events, by subscription.
    pub subscriptions: Seq<(WampId, Binding)>,
    /// The handlers of invocations, by registration.
    pub registrations: Seq<(WampId, Binding)>,
    /// The invocations whose handlers have yet to return.
    pub invocations: Seq<(WampId, ())>,
}

/// Whether a request of a kind awaits its answer under the identifier.
pub open spec fn awaits(m: ClientModel, kind: RequestKind, id: WampId) -> bool {
    match kind {
        RequestKind::Call => holds(m.calls, id),
        RequestKind::Register => holds(m.registers, id),
        RequestKind::Unregister => holds(m.unregisters, id),
        RequestKind::Subscribe => holds(m.subscribes, id),
        RequestKind::Unsubscribe => holds(m.unsubscribes, id),
        RequestKind::Publish => holds(m.publishes, id),
    }
}

/// Whether a request of any kind awaits its answer under the identifier.
pub open spec fn pending(m: ClientModel, id: WampId) -> bool {
    ||| awaits(m, RequestKind::Call, id)
    ||| awaits(m, RequestKind::Register, id)
    ||| awaits(m, RequestKind::Unregister, id)
    ||| awaits(m, RequestKind::Subscribe, id)
    ||| awaits(m, RequestKind::Unsubscribe, id)
    ||| awaits(m, RequestKind::Publish, id)
}

/// Whether what a client holds is in order: within each table no
/// identifier stands twice, and no request identifier stands in two tables.
pub open spec fn model_wf(m: ClientModel) -> bool {
    &&& distinct_ids(m.calls)
    &&& distinct_ids(m.registers)
    &&& distinct_ids(m.unregisters)
    &&& distinct_ids(m.subscribes)
    &&& distinct_ids(m.unsubscribes)
    &&& distinct_ids(m.publishes)
    &&& distinct_ids(m.subscriptions)
    &&& distinct_ids(m.registrations)
    &&& distinct_ids(m.invocations)
    &&& forall|id: WampId, a: RequestKind, b: RequestKind|
        #[trigger] awaits(m, a, id) && #[trigger] awaits(m, b, id) ==> a == b
}

/// The effects that resolve every request of a table with the loss of the
/// session, in the order of the table.
pub open spec fn lost<T>(entries: Seq<(WampId, PendingRequest<T>)>) -> Seq<Effect> {
    Seq::new(
        entries.len(),
        |i: int|
            Effect::Resolve {
                request: entries[i].0,
                outcome: Outcome::Failed(WampError::SessionLost),
            },
    )
}

/// The effects that resolve every request that awaits an answer with the
/// loss of the session: calls first, then registrations, unregistrations,
/// subscriptions, unsubscriptions and publications.
pub open spec fn all_lost(m: ClientModel) -> Seq<Effect> {
    lost(m.calls) + lost(m.registers) + lost(m.unregisters) + lost(m.subscribes) + lost(
        m.unsubscribes,
    ) + lost(m.publishes)
}

/// What a client holds once its session has ended in a state: no request,
/// no handler and no invocation.
pub open spec fn ended(m: ClientModel, state: ClientState) -> ClientModel {
    ClientModel {
        state,
        last_id: m.last_id,
        calls: Seq::empty(),
        registers: Seq::empty(),
        unregisters: Seq::empty(),
        subscribes: Seq::empty(),
        unsubscribes: Seq::empty(),
        publishes: Seq::empty(),
        subscriptions: Seq::empty(),
        registrations: Seq::empty(),
        invocations: Seq::empty(),
    }
}

/// The effects of a session that fails: a connect that is awaited fails,
/// every request is lost, a disconnect that is awaited completes, and the
/// transport is closed.
pub open spec fn failure_effects(m: ClientModel, failure: Failure) -> Seq<Effect> {
    let join = if joining(m.state) {
        seq![Effect::JoinFailed(join_error(failure))]
    } else {
        Seq::empty()
    };
    let leave = if m.state is Closing {
        seq![Effect::Left]
    } else {
        Seq::empty()
    };
    join + all_lost(m) + leave + seq![Effect::CloseTransport]
}

/// Whether `post` and `effects` are what a failure makes of `pre`.
pub open spec fn fails(
    pre: ClientModel,
    failure: Failure,
    post: ClientModel,
    effects: Seq<Effect>,
) -> bool {
    &&& post == ended(pre, ClientState::Failed(failure))
    &&& effects =~= failure_effects(pre, failure)
}

/// Whether a message is the farewell that answers a farewell.
pub open spec fn is_farewell_reply(m: Message) -> bool {
    m matches Message::Goodbye { details, reason } && details@.len() == 0 && reason@
        == "wamp.close.goodbye_and_out"@
}

/// Whether a message is the farewell with which a client leaves.
pub open spec fn is_farewell(m: Message) -> bool {
    m matches Message::Goodbye { details, reason } && details@.len() == 0 && reason@
        == "wamp.close.close_realm"@
}

/// Whether a message tells the router that an invocation named a
/// registration that the client does not have.
pub open spec fn is_no_such_registration(m: Message, invocation: WampId) -> bool {
    m matches Message::Error { request_type, request, details, error, payload } && request_type
        == INVOCATION && request == invocation && details@.len() == 0 && error@
        == "wamp.error.no_such_registration"@ && payload is Empty
}

/// What a client holds once the request of a kind under the identifier is
/// taken out.
pub open spec fn dropped(m: ClientModel, kind: RequestKind, id: WampId) -> ClientModel {
    match kind {
        RequestKind::Call => ClientModel { calls: without(m.calls, id), ..m },
        RequestKind::Register => ClientModel { registers: without(m.registers, id), ..m },
        RequestKind::Unregister => ClientModel { unregisters: without(m.unregisters, id), ..m },
        RequestKind::Subscribe => ClientModel { subscribes: without(m.subscribes, id), ..m },
        RequestKind::Unsubscribe => ClientModel {
            unsubscribes: without(m.unsubscribes, id),
            ..m
        },
        RequestKind::Publish => ClientModel { publishes: without(m.publishes, id), ..m },
    }
}

/// The deadline of the request of a kind under the identifier, if that
/// request awaits its answer and has a deadline.
pub open spec fn deadline_of(m: ClientModel, kind: RequestKind, id: WampId) -> Option<u64> {
    match kind {
        RequestKind::Call => match entry_of(m.calls, id) {
            Some(entry) => entry.deadline,
            None => None,
        },
        RequestKind::Register => match entry_of(m.registers, id) {
            Some(entry) => entry.deadline,
            None => None,
        },
        RequestKind::Unregister => match entry_of(m.unregisters, id) {
            Some(entry) => entry.deadline,
            None => None,
        },
        RequestKind::Subscribe => match entry_of(m.subscribes, id) {
            Some(entry) => entry.deadline,
            None => None,
        },
        RequestKind::Unsubscribe => match entry_of(m.unsubscribes, id) {
            Some(entry) => entry.deadline,
            None => None,
        },
        RequestKind::Publish => match entry_of(m.publishes, id) {
            Some(entry) => entry.deadline,
            None => None,
        },
    }
}

/// Whether `post` and `effects` are what an answer without a request makes
/// of `pre`: nothing changes, and the answer is noted as orphaned.
pub open spec fn orphans(
    pre: ClientModel,
    request: WampId,
    post: ClientModel,
    effects: Seq<Effect>,
) -> bool {
    &&& post == pre
    &&& effects =~= seq![Effect::Orphaned { request }]
}

/// What the result of a call does: the call under the identifier leaves its
/// table and resolves with the result; without such a call the result is
/// orphaned.
pub open spec fn result_step(
    pre: ClientModel,
    request: WampId,
    details: WampDict,
    payload: Payload,
    post: ClientModel,
    effects: Seq<Effect>,
) -> bool {
    if holds(pre.calls, request) {
        &&& post == dropped(pre, RequestKind::Call, request)
        &&& effects =~= seq![
            Effect::Resolve { request, outcome: Outcome::Returned { details, payload } },
        ]
    } else {
        orphans(pre, request, post, effects)
    }
}

/// What an error does: the request of the named kind under the identifier
/// leaves its table and resolves with the error; without such a request the
/// error is orphaned. An error that names no kind of request fails the
/// session.
pub open spec fn error_step(
    pre: ClientModel,
    request_type: u64,
    request: WampId,
    details: WampDict,
    error: WampUri,
    payload: Payload,
    post: ClientModel,
    effects: Seq<Effect>,
) -> bool {
    match kind_of(request_type) {
        Some(kind) => if awaits(pre, kind, request) {
            &&& post == dropped(pre, kind, request)
            &&& effects =~= seq![
                Effect::Resolve {
                    request,
                    outcome: Outcome::Failed(WampError::RemoteError { error, details, payload }),
                },
            ]
        } else {
            orphans(pre, request, post, effects)
        },
        None => fails(pre, Failure::ProtocolViolation, post, effects),
    }
}

/// What the confirmation of a registration does: the request leaves its table,
/// its handler is installed under the registration, and the request resolves
/// with the registration.
pub open spec fn registered_step(
    pre: ClientModel,
    request: WampId,
    registration: WampId,
    post: ClientModel,
    effects: Seq<Effect>,
) -> bool {
    match entry_of(pre.registers, request) {
        Some(entry) => {
            &&& post == ClientModel {
                registers: without(pre.registers, request),
                registrations: replaced(pre.registrations, registration, entry.detail),
                ..pre
            }
            &&& effects =~= seq![
                Effect::Resolve { request, outcome: Outcome::Registered(registration) },
            ]
        },
        None => orphans(pre, request, post, effects),
    }
}

/// What the confirmation of an unregistration does: the request leaves its
/// table, the handler of its registration is removed, and the request
/// resolves.
pub open spec fn unregistered_step(
    pre: ClientModel,
    request: WampId,
    post: ClientModel,
    effects: Seq<Effect>,
) -> bool {
    match entry_of(pre.unregisters, request) {
        Some(entry) => {
            &&& post == ClientModel {
                unregisters: without(pre.unregisters, request),
                registrations: without(pre.registrations, entry.detail),
                ..pre
            }
            &&& effects =~= seq![Effect::Resolve { request, outcome: Outcome::Unregistered }]
        },
        None => orphans(pre, request, post, effects),
    }
}

/// What the confirmation of a subscription does: the request leaves its table,
/// its handler is installed under the subscription, and the request resolves
/// with the subscription.
pub open spec fn subscribed_step(
    pre: ClientModel,
    request: WampId,
    subscription: WampId,
    post: ClientModel,
    effects: Seq<Effect>,
) -> bool {
    match entry_of(pre.subscribes, request) {
        Some(entry) => {
            &&& post == ClientModel {
                subscribes: without(pre.subscribes, request),
                subscriptions: replaced(pre.subscriptions, subscription, entry.detail),
                ..pre
            }
            &&& effects =~= seq![
                Effect::Resolve { request, outcome: Outcome::Subscribed(subscription) },
            ]
        },
        None => orphans(pre, request, post, effects),
    }
}

/// What the confirmation of an unsubscription does: the request leaves its
/// table, the handler of its subscription is removed, and the request
/// resolves.
pub open spec fn unsubscribed_step(
    pre: ClientModel,
    request: WampId,
    post: ClientModel,
    effects: Seq<Effect>,
) -> bool {
    match entry_of(pre.unsubscribes, request) {
        Some(entry) => {
            &&& post == ClientModel {
                unsubscribes: without(pre.unsubscribes, request),
                subscriptions: without(pre.subscriptions, entry.detail),
                ..pre
            }
            &&& effects =~= seq![Effect::Resolve { request, outcome: Outcome::Unsubscribed }]
        },
        None => orphans(pre, request, post, effects),
    }
}

/// What the acknowledgement of a publication does: the request leaves its
/// table and resolves with the publication; without such a request the
/// acknowledgement is orphaned.
pub open spec fn published_step(
    pre: ClientModel,
    request: WampId,
    publication: WampId,
    post: ClientModel,
    effects: Seq<Effect>,
) -> bool {
    if holds(pre.publishes, request) {
        &&& post == dropped(pre, RequestKind::Publish, request)
        &&& effects =~= seq![
            Effect::Resolve { request, outcome: Outcome::Published(publication) },
        ]
    } else {
        orphans(pre, request, post, effects)
    }
}

/// What an event does: it goes to the handler of its subscription. Under a
/// subscription that the client does not have it is dropped: nothing changes
/// and nothing is to be done.
pub open spec fn event_step(
    pre: ClientModel,
    subscription: WampId,
    publication: WampId,
    details: WampDict,
    payload: Payload,
    post: ClientModel,
    effects: Seq<Effect>,
) -> bool {
    &&& post == pre
    &&& match entry_of(pre.subscriptions, subscription) {
        Some(binding) => effects =~= seq![
            Effect::Notify { handler: binding.handler, publication, details, payload },
        ],
        None => effects =~= Seq::<Effect>::empty(),
    }
}

/// What an invocation does: the handler of its registration is to be run, and
/// the invocation is kept until the handler has returned. Under a registration
/// that the client does not have the router is told so. An invocation under
/// the identifier of one that is still running fails the session.
pub open spec fn invocation_step(
    pre: ClientModel,
    request: WampId,
    registration: WampId,
    details: WampDict,
    payload: Payload,
    post: ClientModel,
    effects: Seq<Effect>,
) -> bool {
    match entry_of(pre.registrations, registration) {
        Some(binding) => if holds(pre.invocations, request) {
            fails(pre, Failure::ProtocolViolation, post, effects)
        } else {
            &&& post == ClientModel { invocations: pre.invocations.push((request, ())), ..pre }
            &&& effects =~= seq![
                Effect::Invoke { handler: binding.handler, request, details, payload },
            ]
        },
        None => {
            &&& post == pre
            &&& effects.len() == 1
            &&& effects[0] matches Effect::Send(m)
            &&& is_no_such_registration(m, request)
        },
    }
}

/// What a farewell does: in an established session it is answered, and the
/// session is closed; while the client is leaving it is the answer, and the
/// disconnect completes. Either way every request is lost. In any other state
/// it fails the session.
pub open spec fn goodbye_step(pre: ClientModel, post: ClientModel, effects: Seq<Effect>) -> bool {
    if pre.state is Established {
        &&& post == ended(pre, ClientState::Closed)
        &&& effects.len() == 1 + all_lost(pre).len()
        &&& effects[0] matches Effect::Send(m)
        &&& is_farewell_reply(m)
        &&& effects.skip(1) =~= all_lost(pre)
    } else if pre.state is Closing {
        &&& post == ended(pre, ClientState::Closed)
        &&& effects =~= all_lost(pre) + seq![Effect::Left]
    } else {
        fails(pre, Failure::ProtocolViolation, post, effects)
    }
}

/// Whether `post` and `effects` are what an inbound message makes of `pre`.
/// A welcome or a refusal is taken while the session is being established,
/// and a farewell in an established session or while leaving; in another
/// state each fails the session. Answers, events and invocations are taken
/// in every state. A message that only a router receives fails the session.
pub open spec fn step(
    pre: ClientModel,
    msg: Message,
    post: ClientModel,
    effects: Seq<Effect>,
) -> bool {
    match msg {
        Message::Welcome { session, details } => if pre.state is Establishing {
            &&& post == ClientModel { state: ClientState::Established(session), ..pre }
            &&& effects =~= seq![Effect::Joined(session)]
        } else {
            fails(pre, Failure::ProtocolViolation, post, effects)
        },
        Message::Abort { details, reason } => if pre.state is Establishing {
            &&& post == ended(pre, ClientState::Failed(Failure::Aborted))
            &&& effects =~= seq![
                Effect::JoinFailed(
                    WampError::RemoteError { error: reason, details, payload: Payload::Empty },
                ),
            ] + all_lost(pre)
        } else {
            fails(pre, Failure::ProtocolViolation, post, effects)
        },
        Message::Goodbye { details, reason } => goodbye_step(pre, post, effects),
        Message::Error { request_type, request, details, error, payload } => error_step(
            pre,
            request_type,
            request,
            details,
            error,
            payload,
            post,
            effects,
        ),
        Message::CallResult { request, details, payload } => result_step(
            pre,
            request,
            details,
            payload,
            post,
            effects,
        ),
        Message::Registered { request, registration } => registered_step(
            pre,
            request,
            registration,
            post,
            effects,
        ),
        Message::Unregistered { request } => unregistered_step(pre, request, post, effects),
        Message::Subscribed { request, subscription } => subscribed_step(
            pre,
            request,
            subscription,
            post,
            effects,
        ),
        Message::Unsubscribed { request } => unsubscribed_step(pre, request, post, effects),
        Message::Published { request, publication } => published_step(
            pre,
            request,
            publication,
            post,
            effects,
        ),
        Message::Event { subscription, publication, details, payload } => event_step(
            pre,
            subscription,
            publication,
            details,
            payload,
            post,
            effects,
        ),
        Message::Invocation { request, registration, details, payload } => invocation_step(
            pre,
            request,
            registration,
            details,
            payload,
            post,
            effects,
        ),
        _ => fails(pre, Failure::ProtocolViolation, post, effects),
    }
}

/// Whether no identifier stands twice within any table of `m`.
pub open spec fn tables_distinct(m: ClientModel) -> bool {
    &&& distinct_ids(m.calls)
    &&& distinct_ids(m.registers)
    &&& distinct_ids(m.unregisters)
    &&& distinct_ids(m.subscribes)
    &&& distinct_ids(m.unsubscribes)
    &&& distinct_ids(m.publishes)
    &&& distinct_ids(m.subscriptions)
    &&& distinct_ids(m.registrations)
    &&& distinct_ids(m.invocations)
}

/// A client stays in order when no request is added.
pub proof fn lemma_wf_kept(pre: ClientModel, post: ClientModel)
    requires
        model_wf(pre),
        tables_distinct(post),
        forall|kind: RequestKind, id: WampId| #[trigger]
            awaits(post, kind, id) ==> awaits(pre, kind, id),
    ensures
        model_wf(post),
{
    assert forall|id: WampId, a: RequestKind, b: RequestKind| #[trigger]
        awaits(post, a, id) && #[trigger] awaits(post, b, id) implies a == b by {
        assert(awaits(pre, a, id) && awaits(pre, b, id));
    }
}

/// A client stays in order when one request is added under an identifier
/// under which none awaits its answer.
pub proof fn lemma_wf_with_fresh(pre: ClientModel, post: ClientModel, kind: RequestKind, id: WampId)
    requires
        model_wf(pre),
        tables_distinct(post),
        !pending(pre, id),
        forall|k: RequestKind, x: WampId| #[trigger]
            awaits(post, k, x) ==> awaits(pre, k, x) || (k == kind && x == id),
    ensures
        model_wf(post),
{
    assert forall|x: WampId, a: RequestKind, b: RequestKind| #[trigger]
        awaits(post, a, x) && #[trigger] awaits(post, b, x) implies a == b by {
        if x == id {
            assert(!awaits(pre, a, x));
            assert(!awaits(pre, b, x));
        } else {
            assert(awaits(pre, a, x) && awaits(pre, b, x));
        }
    }
}

/// What a caller who asks for a connection is told.
#[derive(Clone, Copy, Debug, PartialEq, Eq, Structural)]
pub enum Admission {
    /// The caller is to connect the transport and send the greeting.
    Proceed,
    /// A connect is under way; the caller is to await its outcome.
    Wait,
    /// The session is established, leaving or over; no connect is possible.
    Refused,
}

/// What the handler of an invocation came back with.
#[derive(Debug, PartialEq, Eq)]
pub enum HandlerResult {
    /// The handler returned a result.
    Done(Payload),
    /// The handler failed with an error.
    Failed { error: WampUri, payload: Payload },
}

/// The identifier that a new request gets, or the error that refuses the
/// request: outside an established session there is no connection, and an
/// identifier under which a request still awaits its answer is not given
/// again.
pub open spec fn admitted(pre: ClientModel) -> Result<WampId, WampError> {
    if !(pre.state is Established) {
        Err(WampError::NotConnected)
    } else if pending(pre, successor(pre.last_id)) {
        Err(WampError::DuplicateRequestId)
    } else {
        Ok(successor(pre.last_id))
    }
}

/// What a client holds once a new request has asked for its identifier:
/// in an established session the identifier counts as handed out, and
/// outside one nothing changes.
pub open spec fn after_admission(pre: ClientModel) -> ClientModel {
    if pre.state is Established {
        ClientModel { last_id: successor(pre.last_id), ..pre }
    } else {
        pre
    }
}

/// Whether a message answers an invocation with what its handler came back
/// with: a yield that carries the result, or an error that carries the
/// failure.
pub open spec fn is_reply(m: Message, invocation: WampId, result: HandlerResult) -> bool {
    match result {
        HandlerResult::Done(result) => m matches Message::Yield { request, options, payload }
            && request == invocation && options@.len() == 0 && payload == result,
        HandlerResult::Failed { error: failure, payload: result } => m matches Message::Error {
            request_type,
            request,
            details,
            error,
            payload,
        } && request_type == INVOCATION && request == invocation && details@.len() == 0 && error
            == failure && payload == result,
    }
}

/// Whether `options` are the options of a publication that asks for an
/// acknowledgement or not: with one, `given` with `true` under the key
/// `acknowledge`; without, `given` itself.
pub open spec fn publish_options(given: WampDict, acknowledge: bool, options: WampDict) -> bool {
    if acknowledge {
        dict_model(options@) == with_entry(
            dict_model(given@),
            "acknowledge"@,
            ArgModel::Bool(true),
        )
    } else {
        options == given
    }
}

/// The identifiers of the requests of a kind that await their answers, in
/// the order in which they were made.
pub open spec fn request_ids(m: ClientModel, kind: RequestKind) -> Seq<WampId> {
    match kind {
        RequestKind::Call => ids_of(m.calls),
        RequestKind::Register => ids_of(m.registers),
        RequestKind::Unregister => ids_of(m.unregisters),
        RequestKind::Subscribe => ids_of(m.subscribes),
        RequestKind::Unsubscribe => ids_of(m.unsubscribes),
        RequestKind::Publish => ids_of(m.publishes),
    }
}

/// Any two requests that await their answers at the same time, of the same
/// kind or not, have different identifiers.
pub proof fn lemma_pending_ids_differ(
    m: ClientModel,
    a: RequestKind,
    i: int,
    b: RequestKind,
    j: int,
)
    requires
        model_wf(m),
        0 <= i < request_ids(m, a).len(),
        0 <= j < request_ids(m, b).len(),
        a != b || i != j,
    ensures
        request_ids(m, a)[i] != request_ids(m, b)[j],
{
    let x = request_ids(m, a)[i];
    let y = request_ids(m, b)[j];
    assert(awaits(m, a, x)) by {
        match a {
            RequestKind::Call => assert(m.calls[i].0 == x),
            RequestKind::Register => assert(m.registers[i].0 == x),
            RequestKind::Unregister => assert(m.unregisters[i].0 == x),
            RequestKind::Subscribe => assert(m.subscribes[i].0 == x),
            RequestKind::Unsubscribe => assert(m.unsubscribes[i].0 == x),
            RequestKind::Publish => assert(m.publishes[i].0 == x),
        }
    }
    assert(awaits(m, b, y)) by {
        match b {
            RequestKind::Call => assert(m.calls[j].0 == y),
            RequestKind::Register => assert(m.registers[j].0 == y),
            RequestKind::Unregister => assert(m.unregisters[j].0 == y),
            RequestKind::Subscribe => assert(m.subscribes[j].0 == y),
            RequestKind::Unsubscribe => assert(m.unsubscribes[j].0 == y),
            RequestKind::Publish => assert(m.publishes[j].0 == y),
        }
    }
    if x == y {
        assert(a == b);
        match a {
            RequestKind::Call => {
                lemma_place_is_unique(m.calls, x, i);
                lemma_place_is_unique(m.calls, x, j);
            },
            RequestKind::Register => {
                lemma_place_is_unique(m.registers, x, i);
                lemma_place_is_unique(m.registers, x, j);
            },
            RequestKind::Unregister => {
                lemma_place_is_unique(m.unregisters, x, i);
                lemma_place_is_unique(m.unregisters, x, j);
            },
            RequestKind::Subscribe => {
                lemma_place_is_unique(m.subscribes, x, i);
                lemma_place_is_unique(m.subscribes, x, j);
            },
            RequestKind::Unsubscribe => {
                lemma_place_is_unique(m.unsubscribes, x, i);
                lemma_place_is_unique(m.unsubscribes, x, j);
            },
            RequestKind::Publish => {
                lemma_place_is_unique(m.publishes, x, i);
                lemma_place_is_unique(m.publishes, x, j);
            },
        }
    }
}

/// The identifier that a new request is given belongs to no request that
/// awaits its answer.
pub proof fn lemma_admitted_is_fresh(m: ClientModel, kind: RequestKind)
    requires
        admitted(m) is Ok,
    ensures
        !awaits(m, kind, admitted(m)->Ok_0),
        1 <= admitted(m)->Ok_0 <= crate::ident::MAX_ID,
{
}

/// Outside an established session no request is admitted: it fails as not
/// connected, and the client stays as it was.
pub proof fn lemma_not_connected(m: ClientModel)
    requires
        !(m.state is Established),
    ensures
        admitted(m) == Err::<WampId, WampError>(WampError::NotConnected),
        after_admission(m) == m,
{
}

/// A request that was resolved, with an answer, an error or a timeout, no
/// longer awaits an answer, under any kind, and has no deadline left to
/// pass; taking it out again changes nothing; and the client stays in order.
pub proof fn lemma_resolved_is_absent(m: ClientModel, kind: RequestKind, id: WampId)
    requires
        model_wf(m),
    ensures
        awaits(m, kind, id) ==> !pending(dropped(m, kind, id), id),
        !awaits(dropped(m, kind, id), kind, id),
        deadline_of(dropped(m, kind, id), kind, id) is None,
        dropped(dropped(m, kind, id), kind, id) == dropped(m, kind, id),
        model_wf(dropped(m, kind, id)),
{
    let after = dropped(m, kind, id);
    lemma_without_holds(m.calls, id);
    lemma_without_holds(m.registers, id);
    lemma_without_holds(m.unregisters, id);
    lemma_without_holds(m.subscribes, id);
    lemma_without_holds(m.unsubscribes, id);
    lemma_without_holds(m.publishes, id);
    lemma_wf_kept(m, after);
    if awaits(m, kind, id) {
        assert forall|other: RequestKind| !awaits(after, other, id) by {
            if other != kind && awaits(after, other, id) {
                assert(awaits(m, other, id));
            }
        }
    }
}

/// Resolving one request, with an answer, an error or a timeout, leaves the
/// state of the session and every other request as they were.
pub proof fn lemma_resolving_is_local(
    m: ClientModel,
    kind: RequestKind,
    id: WampId,
    other_kind: RequestKind,
    other: WampId,
)
    requires
        model_wf(m),
        other_kind != kind || other != id,
    ensures
        dropped(m, kind, id).state == m.state,
        dropped(m, kind, id).last_id == m.last_id,
        dropped(m, kind, id).subscriptions == m.subscriptions,
        dropped(m, kind, id).registrations == m.registrations,
        awaits(dropped(m, kind, id), other_kind, other) == awaits(m, other_kind, other),
        deadline_of(dropped(m, kind, id), other_kind, other) == deadline_of(m, other_kind, other),
{
    if other_kind == kind {
        match kind {
            RequestKind::Call => lemma_without_keeps_others(m.calls, id, other),
            RequestKind::Register => lemma_without_keeps_others(m.registers, id, other),
            RequestKind::Unregister => lemma_without_keeps_others(m.unregisters, id, other),
            RequestKind::Subscribe => lemma_without_keeps_others(m.subscribes, id, other),
            RequestKind::Unsubscribe => lemma_without_keeps_others(m.unsubscribes, id, other),
            RequestKind::Publish => lemma_without_keeps_others(m.publishes, id, other),
        }
    }
}

/// The result of a call resolves the call once: after it the call no longer
/// awaits an answer, and a second result under the same identifier is
/// orphaned and changes nothing.
pub proof fn lemma_answered_once(
    pre: ClientModel,
    request: WampId,
    first: (WampDict, Payload),
    mid: ClientModel,
    first_effects: Seq<Effect>,
    second: (WampDict, Payload),
    post: ClientModel,
    second_effects: Seq<Effect>,
)
    requires
        model_wf(pre),
        result_step(pre, request, first.0, first.1, mid, first_effects),
        result_step(mid, request, second.0, second.1, post, second_effects),
    ensures
        !holds(mid.calls, request),
        orphans(mid, request, post, second_effects),
{
    lemma_resolved_is_absent(pre, RequestKind::Call, request);
}

/// An event under a subscription that the client does not have changes
/// nothing and asks for nothing, whatever the state of the session.
pub proof fn lemma_unknown_event_is_dropped(
    pre: ClientModel,
    subscription: WampId,
    publication: WampId,
    details: WampDict,
    payload: Payload,
    post: ClientModel,
    effects: Seq<Effect>,
)
    requires
        !holds(pre.subscriptions, subscription),
        step(pre, Message::Event { subscription, publication, details, payload }, post, effects),
    ensures
        post == pre,
        effects == Seq::<Effect>::empty(),
{
}

} // verus!
