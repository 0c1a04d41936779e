use wamp_async::client::{request_kind, Client};
use wamp_async::common::Arg;
use wamp_async::error::WampError;
use wamp_async::message::{Message, Payload};
use wamp_async::session::{
    Admission, Binding, ClientState, Effect, Failure, HandlerResult, Outcome, RequestKind,
};

fn established(last: u64, session: u64) -> Client {
    let mut client = Client::starting_after(last);
    assert_eq!(client.connect(), Admission::Proceed);
    assert_eq!(
        client.hello("realm1".to_owned(), vec![]),
        Some(Message::Hello { realm: "realm1".to_owned(), details: vec![] })
    );
    assert_eq!(
        client.dispatch(Message::Welcome { session, details: vec![] }),
        vec![Effect::Joined(session)]
    );
    client
}

fn lost(request: u64) -> Effect {
    Effect::Resolve { request, outcome: Outcome::Failed(WampError::SessionLost) }
}

#[test]
fn new_client_is_disconnected() {
    assert_eq!(Client::new().state(), ClientState::Disconnected);
}

#[test]
fn connect_walks_through_connecting_and_establishing() {
    let mut client = Client::new();
    assert_eq!(client.connect(), Admission::Proceed);
    assert_eq!(client.state(), ClientState::Connecting);
    assert_eq!(client.connect(), Admission::Wait);
    assert!(client.hello("realm1".to_owned(), vec![]).is_some());
    assert_eq!(client.state(), ClientState::Establishing);
    assert_eq!(client.connect(), Admission::Wait);
    assert_eq!(client.hello("realm1".to_owned(), vec![]), None);
    assert_eq!(client.state(), ClientState::Establishing);
}

#[test]
fn connect_is_refused_once_a_session_exists_or_is_over() {
    let mut client = established(0, 1);
    assert_eq!(client.connect(), Admission::Refused);
    assert_eq!(client.state(), ClientState::Established(1));
    client.fail(Failure::ReceiveFailed);
    assert_eq!(client.connect(), Admission::Refused);
    assert_eq!(client.state(), ClientState::Failed(Failure::ReceiveFailed));
}

#[test]
fn hello_before_connect_gives_nothing() {
    let mut client = Client::new();
    assert_eq!(client.hello("realm1".to_owned(), vec![]), None);
    assert_eq!(client.state(), ClientState::Disconnected);
}

#[test]
fn welcome_establishes_the_session() {
    let mut client = Client::new();
    client.connect();
    client.hello("realm1".to_owned(), vec![]);
    let effects = client.dispatch(Message::Welcome { session: 42, details: vec![] });
    assert_eq!(client.state(), ClientState::Established(42));
    assert_eq!(effects, vec![Effect::Joined(42)]);
}

#[test]
fn abort_fails_the_connect_with_the_reason_of_the_router() {
    let mut client = Client::new();
    client.connect();
    client.hello("realm1".to_owned(), vec![]);
    let effects = client.dispatch(Message::Abort {
        details: vec![("message".to_owned(), Arg::String("no such realm".to_owned()))],
        reason: "wamp.error.no_such_realm".to_owned(),
    });
    assert_eq!(client.state(), ClientState::Failed(Failure::Aborted));
    assert_eq!(
        effects,
        vec![Effect::JoinFailed(WampError::RemoteError {
            error: "wamp.error.no_such_realm".to_owned(),
            details: vec![("message".to_owned(), Arg::String("no such realm".to_owned()))],
            payload: Payload::Empty,
        })]
    );
}

#[test]
fn welcome_in_an_established_session_is_a_violation() {
    let mut client = established(0, 1);
    let effects = client.dispatch(Message::Welcome { session: 2, details: vec![] });
    assert_eq!(client.state(), ClientState::Failed(Failure::ProtocolViolation));
    assert_eq!(effects, vec![Effect::CloseTransport]);
}

#[test]
fn abort_in_an_established_session_is_a_violation() {
    let mut client = established(0, 1);
    let effects =
        client.dispatch(Message::Abort { details: vec![], reason: "wamp.error.x".to_owned() });
    assert_eq!(client.state(), ClientState::Failed(Failure::ProtocolViolation));
    assert_eq!(effects, vec![Effect::CloseTransport]);
}

#[test]
fn call_is_answered_by_its_result() {
    let mut client = established(6, 42);
    let sent = client.call(
        "add".to_owned(),
        Payload::Positional(vec![Arg::Integer(2), Arg::Integer(3)]),
        vec![],
        None,
    );
    assert_eq!(
        sent,
        Ok(Message::Call {
            request: 7,
            options: vec![],
            procedure: "add".to_owned(),
            payload: Payload::Positional(vec![Arg::Integer(2), Arg::Integer(3)]),
        })
    );
    assert!(client.is_pending(7));
    let effects = client.dispatch(Message::CallResult {
        request: 7,
        details: vec![],
        payload: Payload::Positional(vec![Arg::Integer(5)]),
    });
    assert_eq!(
        effects,
        vec![Effect::Resolve {
            request: 7,
            outcome: Outcome::Returned {
                details: vec![],
                payload: Payload::Positional(vec![Arg::Integer(5)]),
            },
        }]
    );
    assert!(!client.is_pending(7));
    assert_eq!(client.state(), ClientState::Established(42));
}

#[test]
fn call_times_out_and_a_late_result_is_orphaned() {
    let mut client = established(8, 42);
    let sent = client.call("slow".to_owned(), Payload::Empty, vec![], Some(100));
    assert!(matches!(sent, Ok(Message::Call { request: 9, .. })));
    assert_eq!(client.timeout(RequestKind::Call, 9, 99), None);
    assert!(client.is_pending(9));
    assert_eq!(
        client.timeout(RequestKind::Call, 9, 100),
        Some(Effect::Resolve { request: 9, outcome: Outcome::Failed(WampError::Timeout) })
    );
    assert!(!client.is_pending(9));
    assert_eq!(client.state(), ClientState::Established(42));
    let effects = client.dispatch(Message::CallResult {
        request: 9,
        details: vec![],
        payload: Payload::Positional(vec![Arg::Integer(1)]),
    });
    assert_eq!(effects, vec![Effect::Orphaned { request: 9 }]);
    assert_eq!(client.timeout(RequestKind::Call, 9, 1000), None);
}

#[test]
fn timeout_after_the_answer_does_nothing() {
    let mut client = established(0, 42);
    client.call("p".to_owned(), Payload::Empty, vec![], Some(10)).unwrap();
    client.dispatch(Message::CallResult { request: 1, details: vec![], payload: Payload::Empty });
    assert_eq!(client.timeout(RequestKind::Call, 1, 10), None);
}

#[test]
fn request_without_deadline_never_times_out() {
    let mut client = established(0, 42);
    client.call("p".to_owned(), Payload::Empty, vec![], None).unwrap();
    assert_eq!(client.timeout(RequestKind::Call, 1, u64::MAX), None);
    assert!(client.is_pending(1));
}

#[test]
fn timeout_looks_only_at_the_table_of_its_kind() {
    let mut client = established(0, 42);
    client.call("p".to_owned(), Payload::Empty, vec![], Some(10)).unwrap();
    assert_eq!(client.timeout(RequestKind::Publish, 1, 10), None);
    assert!(client.is_pending(1));
}

#[test]
fn decode_failure_loses_every_pending_call() {
    let mut client = established(0, 42);
    for _ in 0..3 {
        client.call("p".to_owned(), Payload::Empty, vec![], None).unwrap();
    }
    let effects = client.receive(vec![Arg::Integer(50), Arg::String("seven".to_owned())]);
    assert_eq!(effects, vec![lost(1), lost(2), lost(3), Effect::CloseTransport]);
    assert_eq!(client.state(), ClientState::Failed(Failure::ProtocolViolation));
    assert_eq!(
        client.call("p".to_owned(), Payload::Empty, vec![], None),
        Err(WampError::NotConnected)
    );
    assert!(!client.is_pending(1));
    assert!(!client.is_pending(2));
    assert!(!client.is_pending(3));
}

#[test]
fn transport_failure_loses_requests_of_every_kind_in_table_order() {
    let mut client = established(0, 42);
    client.publish("t".to_owned(), Payload::Empty, vec![], true, None).unwrap();
    client.unsubscribe(500, None).unwrap();
    client.subscribe("t".to_owned(), 1, vec![], None).unwrap();
    client.unregister(5, None).unwrap();
    client.register("p".to_owned(), 2, vec![], None).unwrap();
    client.call("p".to_owned(), Payload::Empty, vec![], None).unwrap();
    let effects = client.fail(Failure::ReceiveFailed);
    assert_eq!(
        effects,
        vec![lost(6), lost(5), lost(4), lost(3), lost(2), lost(1), Effect::CloseTransport]
    );
    assert_eq!(client.state(), ClientState::Failed(Failure::ReceiveFailed));
}

#[test]
fn failure_while_joining_fails_the_connect() {
    let mut client = Client::new();
    client.connect();
    assert_eq!(
        client.fail(Failure::ConnectionFailed),
        vec![Effect::JoinFailed(WampError::ConnectionFailed), Effect::CloseTransport]
    );
    assert_eq!(client.state(), ClientState::Failed(Failure::ConnectionFailed));

    let mut client = Client::new();
    client.connect();
    client.hello("realm1".to_owned(), vec![]);
    assert_eq!(
        client.receive(vec![]),
        vec![Effect::JoinFailed(WampError::ProtocolViolation), Effect::CloseTransport]
    );

    let mut client = Client::new();
    client.connect();
    client.hello("realm1".to_owned(), vec![]);
    assert_eq!(
        client.fail(Failure::ReceiveFailed),
        vec![Effect::JoinFailed(WampError::ReceiveFailed), Effect::CloseTransport]
    );
    assert_eq!(client.state(), ClientState::Failed(Failure::ReceiveFailed));
}

#[test]
fn timeout_of_one_request_leaves_the_others_and_the_session() {
    let mut client = established(0, 42);
    client.call("a".to_owned(), Payload::Empty, vec![], Some(10)).unwrap();
    client.call("b".to_owned(), Payload::Empty, vec![], Some(20)).unwrap();
    client.register("c".to_owned(), 1, vec![], Some(10)).unwrap();
    assert!(client.timeout(RequestKind::Call, 1, 15).is_some());
    assert!(!client.is_pending(1));
    assert!(client.is_pending(2));
    assert!(client.is_pending(3));
    assert_eq!(client.state(), ClientState::Established(42));
    assert_eq!(client.timeout(RequestKind::Call, 2, 15), None);
    assert!(client.timeout(RequestKind::Register, 3, 15).is_some());
}

#[test]
fn failure_while_leaving_completes_the_disconnect() {
    let mut client = established(0, 42);
    client.call("p".to_owned(), Payload::Empty, vec![], None).unwrap();
    client.disconnect().unwrap();
    assert_eq!(
        client.fail(Failure::ReceiveFailed),
        vec![lost(1), Effect::Left, Effect::CloseTransport]
    );
}

#[test]
fn requests_outside_an_established_session_are_not_connected() {
    let mut client = Client::new();
    assert_eq!(
        client.call("p".to_owned(), Payload::Empty, vec![], None),
        Err(WampError::NotConnected)
    );
    assert_eq!(client.register("p".to_owned(), 1, vec![], None), Err(WampError::NotConnected));
    assert_eq!(client.unregister(1, None), Err(WampError::NotConnected));
    assert_eq!(client.subscribe("t".to_owned(), 1, vec![], None), Err(WampError::NotConnected));
    assert_eq!(client.unsubscribe(1, None), Err(WampError::NotConnected));
    assert_eq!(
        client.publish("t".to_owned(), Payload::Empty, vec![], true, None),
        Err(WampError::NotConnected)
    );
    assert_eq!(client.state(), ClientState::Disconnected);
    client.connect();
    client.hello("realm1".to_owned(), vec![]);
    assert_eq!(
        client.call("p".to_owned(), Payload::Empty, vec![], None),
        Err(WampError::NotConnected)
    );
    client.dispatch(Message::Welcome { session: 1, details: vec![] });
    assert!(matches!(
        client.call("p".to_owned(), Payload::Empty, vec![], None),
        Ok(Message::Call { request: 1, .. })
    ));
}

#[test]
fn call_while_leaving_is_not_connected() {
    let mut client = established(0, 42);
    client.disconnect().unwrap();
    assert_eq!(
        client.call("p".to_owned(), Payload::Empty, vec![], None),
        Err(WampError::NotConnected)
    );
    assert!(!client.is_pending(1));
}

#[test]
fn event_for_an_unknown_subscription_is_dropped() {
    let mut client = established(0, 42);
    client.call("p".to_owned(), Payload::Empty, vec![], None).unwrap();
    let effects = client.dispatch(Message::Event {
        subscription: 500,
        publication: 1,
        details: vec![],
        payload: Payload::Empty,
    });
    assert_eq!(effects, vec![]);
    assert_eq!(client.state(), ClientState::Established(42));
    assert!(client.is_pending(1));

    let mut idle = Client::new();
    let effects = idle.dispatch(Message::Event {
        subscription: 500,
        publication: 1,
        details: vec![],
        payload: Payload::Empty,
    });
    assert_eq!(effects, vec![]);
    assert_eq!(idle.state(), ClientState::Disconnected);
}

#[test]
fn subscribe_installs_the_handler_and_events_reach_it() {
    let mut client = established(0, 42);
    let sent = client.subscribe("com.example.topic".to_owned(), 77, vec![], None);
    assert_eq!(
        sent,
        Ok(Message::Subscribe {
            request: 1,
            options: vec![],
            topic: "com.example.topic".to_owned(),
        })
    );
    assert_eq!(client.take_subscription(500), None);
    assert_eq!(
        client.dispatch(Message::Subscribed { request: 1, subscription: 500 }),
        vec![Effect::Resolve { request: 1, outcome: Outcome::Subscribed(500) }]
    );
    assert_eq!(
        client.take_subscription(500),
        Some(&Binding { uri: "com.example.topic".to_owned(), handler: 77 })
    );
    assert_eq!(
        client.dispatch(Message::Event {
            subscription: 500,
            publication: 9,
            details: vec![],
            payload: Payload::Positional(vec![Arg::String("hi".to_owned())]),
        }),
        vec![Effect::Notify {
            handler: 77,
            publication: 9,
            details: vec![],
            payload: Payload::Positional(vec![Arg::String("hi".to_owned())]),
        }]
    );
    assert!(matches!(
        client.unsubscribe(500, None),
        Ok(Message::Unsubscribe { request: 2, subscription: 500 })
    ));
    assert_eq!(
        client.dispatch(Message::Unsubscribed { request: 2 }),
        vec![Effect::Resolve { request: 2, outcome: Outcome::Unsubscribed }]
    );
    assert_eq!(client.take_subscription(500), None);
    assert_eq!(
        client.dispatch(Message::Event {
            subscription: 500,
            publication: 10,
            details: vec![],
            payload: Payload::Empty,
        }),
        vec![]
    );
}

#[test]
fn second_subscription_under_one_identifier_replaces_the_handler() {
    let mut client = established(0, 42);
    client.subscribe("t".to_owned(), 1, vec![], None).unwrap();
    client.subscribe("t".to_owned(), 2, vec![], None).unwrap();
    client.dispatch(Message::Subscribed { request: 1, subscription: 500 });
    client.dispatch(Message::Subscribed { request: 2, subscription: 500 });
    assert_eq!(client.take_subscription(500), Some(&Binding { uri: "t".to_owned(), handler: 2 }));
}

#[test]
fn invocation_runs_the_handler_and_yields_once() {
    let mut client = established(0, 42);
    assert!(matches!(
        client.register("sum".to_owned(), 33, vec![], None),
        Ok(Message::Register { request: 1, .. })
    ));
    assert_eq!(
        client.dispatch(Message::Registered { request: 1, registration: 5 }),
        vec![Effect::Resolve { request: 1, outcome: Outcome::Registered(5) }]
    );
    assert_eq!(
        client.take_registration(5),
        Some(&Binding { uri: "sum".to_owned(), handler: 33 })
    );
    let effects = client.dispatch(Message::Invocation {
        request: 11,
        registration: 5,
        details: vec![],
        payload: Payload::Positional(vec![Arg::Integer(1), Arg::Integer(2)]),
    });
    assert_eq!(
        effects,
        vec![Effect::Invoke {
            handler: 33,
            request: 11,
            details: vec![],
            payload: Payload::Positional(vec![Arg::Integer(1), Arg::Integer(2)]),
        }]
    );
    assert_eq!(
        client
            .finish_invocation(11, HandlerResult::Done(Payload::Positional(vec![Arg::Integer(3)]))),
        Some(Message::Yield {
            request: 11,
            options: vec![],
            payload: Payload::Positional(vec![Arg::Integer(3)]),
        })
    );
    assert_eq!(client.finish_invocation(11, HandlerResult::Done(Payload::Empty)), None);
}

#[test]
fn failing_handler_answers_with_an_error() {
    let mut client = established(0, 42);
    client.register("sum".to_owned(), 33, vec![], None).unwrap();
    client.dispatch(Message::Registered { request: 1, registration: 5 });
    client.dispatch(Message::Invocation {
        request: 11,
        registration: 5,
        details: vec![],
        payload: Payload::Empty,
    });
    assert_eq!(
        client.finish_invocation(
            11,
            HandlerResult::Failed {
                error: "com.example.overflow".to_owned(),
                payload: Payload::Positional(vec![Arg::Integer(9)]),
            }
        ),
        Some(Message::Error {
            request_type: 68,
            request: 11,
            details: vec![],
            error: "com.example.overflow".to_owned(),
            payload: Payload::Positional(vec![Arg::Integer(9)]),
        })
    );
}

#[test]
fn invocation_of_an_unknown_registration_is_answered_with_an_error() {
    let mut client = established(0, 42);
    let effects = client.dispatch(Message::Invocation {
        request: 11,
        registration: 5,
        details: vec![],
        payload: Payload::Empty,
    });
    assert_eq!(
        effects,
        vec![Effect::Send(Message::Error {
            request_type: 68,
            request: 11,
            details: vec![],
            error: "wamp.error.no_such_registration".to_owned(),
            payload: Payload::Empty,
        })]
    );
    assert_eq!(client.finish_invocation(11, HandlerResult::Done(Payload::Empty)), None);
    assert_eq!(client.state(), ClientState::Established(42));
}

#[test]
fn second_invocation_under_a_running_identifier_is_a_violation() {
    let mut client = established(0, 42);
    client.register("sum".to_owned(), 33, vec![], None).unwrap();
    client.dispatch(Message::Registered { request: 1, registration: 5 });
    let invocation = || Message::Invocation {
        request: 11,
        registration: 5,
        details: vec![],
        payload: Payload::Empty,
    };
    assert_eq!(client.dispatch(invocation()).len(), 1);
    assert_eq!(client.dispatch(invocation()), vec![Effect::CloseTransport]);
    assert_eq!(client.state(), ClientState::Failed(Failure::ProtocolViolation));
}

#[test]
fn unregister_removes_the_handler() {
    let mut client = established(0, 42);
    client.register("sum".to_owned(), 33, vec![], None).unwrap();
    client.dispatch(Message::Registered { request: 1, registration: 5 });
    assert_eq!(
        client.unregister(5, None),
        Ok(Message::Unregister { request: 2, registration: 5 })
    );
    assert!(client.take_registration(5).is_some());
    assert_eq!(
        client.dispatch(Message::Unregistered { request: 2 }),
        vec![Effect::Resolve { request: 2, outcome: Outcome::Unregistered }]
    );
    assert_eq!(client.take_registration(5), None);
}

#[test]
fn error_resolves_the_request_of_the_named_kind() {
    let mut client = established(0, 42);
    client.call("p".to_owned(), Payload::Empty, vec![], None).unwrap();
    client.register("p".to_owned(), 1, vec![], None).unwrap();
    let effects = client.dispatch(Message::Error {
        request_type: 64,
        request: 2,
        details: vec![],
        error: "wamp.error.procedure_already_exists".to_owned(),
        payload: Payload::Empty,
    });
    assert_eq!(
        effects,
        vec![Effect::Resolve {
            request: 2,
            outcome: Outcome::Failed(WampError::RemoteError {
                error: "wamp.error.procedure_already_exists".to_owned(),
                details: vec![],
                payload: Payload::Empty,
            }),
        }]
    );
    assert!(client.is_pending(1));
    assert!(!client.is_pending(2));
    assert_eq!(client.take_registration(2), None);
    assert_eq!(client.state(), ClientState::Established(42));
}

#[test]
fn error_for_a_request_of_another_kind_is_orphaned() {
    let mut client = established(0, 42);
    client.call("p".to_owned(), Payload::Empty, vec![], None).unwrap();
    let effects = client.dispatch(Message::Error {
        request_type: 64,
        request: 1,
        details: vec![],
        error: "e".to_owned(),
        payload: Payload::Empty,
    });
    assert_eq!(effects, vec![Effect::Orphaned { request: 1 }]);
    assert!(client.is_pending(1));
}

#[test]
fn error_that_names_no_kind_of_request_is_a_violation() {
    let mut client = established(0, 42);
    client.call("p".to_owned(), Payload::Empty, vec![], None).unwrap();
    let effects = client.dispatch(Message::Error {
        request_type: 68,
        request: 1,
        details: vec![],
        error: "e".to_owned(),
        payload: Payload::Empty,
    });
    assert_eq!(effects, vec![lost(1), Effect::CloseTransport]);
    assert_eq!(client.state(), ClientState::Failed(Failure::ProtocolViolation));
}

#[test]
fn kinds_of_request_by_type_code() {
    assert_eq!(request_kind(48), Some(RequestKind::Call));
    assert_eq!(request_kind(64), Some(RequestKind::Register));
    assert_eq!(request_kind(66), Some(RequestKind::Unregister));
    assert_eq!(request_kind(32), Some(RequestKind::Subscribe));
    assert_eq!(request_kind(34), Some(RequestKind::Unsubscribe));
    assert_eq!(request_kind(16), Some(RequestKind::Publish));
    assert_eq!(request_kind(68), None);
    assert_eq!(request_kind(0), None);
}

#[test]
fn acknowledged_publish_awaits_its_acknowledgement() {
    let mut client = established(0, 42);
    let sent = client.publish(
        "t".to_owned(),
        Payload::Positional(vec![Arg::Integer(1)]),
        vec![("exclude_me".to_owned(), Arg::Bool(false))],
        true,
        None,
    );
    assert_eq!(
        sent,
        Ok(Message::Publish {
            request: 1,
            options: vec![
                ("acknowledge".to_owned(), Arg::Bool(true)),
                ("exclude_me".to_owned(), Arg::Bool(false)),
            ],
            topic: "t".to_owned(),
            payload: Payload::Positional(vec![Arg::Integer(1)]),
        })
    );
    assert!(client.is_pending(1));
    assert_eq!(
        client.dispatch(Message::Published { request: 1, publication: 99 }),
        vec![Effect::Resolve { request: 1, outcome: Outcome::Published(99) }]
    );
    assert!(!client.is_pending(1));
}

#[test]
fn acknowledge_replaces_what_the_options_said() {
    let mut client = established(0, 42);
    let sent = client.publish(
        "t".to_owned(),
        Payload::Empty,
        vec![("acknowledge".to_owned(), Arg::Bool(false))],
        true,
        None,
    );
    assert_eq!(
        sent,
        Ok(Message::Publish {
            request: 1,
            options: vec![("acknowledge".to_owned(), Arg::Bool(true))],
            topic: "t".to_owned(),
            payload: Payload::Empty,
        })
    );
}

#[test]
fn unacknowledged_publish_awaits_nothing() {
    let mut client = established(0, 42);
    let sent = client.publish("t".to_owned(), Payload::Empty, vec![], false, Some(5));
    assert_eq!(
        sent,
        Ok(Message::Publish {
            request: 1,
            options: vec![],
            topic: "t".to_owned(),
            payload: Payload::Empty,
        })
    );
    assert!(!client.is_pending(1));
    assert_eq!(
        client.dispatch(Message::Published { request: 1, publication: 99 }),
        vec![Effect::Orphaned { request: 1 }]
    );
    assert!(matches!(
        client.call("p".to_owned(), Payload::Empty, vec![], None),
        Ok(Message::Call { request: 2, .. })
    ));
}

#[test]
fn request_identifiers_wrap_to_one() {
    let mut client = established((1u64 << 53) - 1, 42);
    assert!(matches!(
        client.call("p".to_owned(), Payload::Empty, vec![], None),
        Ok(Message::Call { request: 9007199254740992, .. })
    ));
    assert!(matches!(
        client.subscribe("t".to_owned(), 1, vec![], None),
        Ok(Message::Subscribe { request: 1, .. })
    ));
    assert!(client.is_pending(9007199254740992));
    assert!(client.is_pending(1));
}

#[test]
fn pending_identifiers_are_pairwise_distinct() {
    let mut client = established(0, 42);
    let mut issued: Vec<u64> = vec![];
    for round in 0..4u64 {
        let sent = [
            client.call("p".to_owned(), Payload::Empty, vec![], None).unwrap(),
            client.register("p".to_owned(), round, vec![], None).unwrap(),
            client.subscribe("t".to_owned(), round, vec![], None).unwrap(),
            client.unregister(round, None).unwrap(),
            client.unsubscribe(round, None).unwrap(),
            client.publish("t".to_owned(), Payload::Empty, vec![], true, None).unwrap(),
        ];
        for message in sent {
            let request = match message {
                Message::Call { request, .. } => request,
                Message::Register { request, .. } => request,
                Message::Subscribe { request, .. } => request,
                Message::Unregister { request, .. } => request,
                Message::Unsubscribe { request, .. } => request,
                Message::Publish { request, .. } => request,
                other => panic!("not a request: {:?}", other),
            };
            assert!(!issued.contains(&request));
            assert!(client.is_pending(request));
            issued.push(request);
        }
    }
    assert_eq!(issued, (1..=24).collect::<Vec<u64>>());
}

#[test]
fn peer_farewell_is_answered_and_closes_the_session() {
    let mut client = established(0, 42);
    client.call("p".to_owned(), Payload::Empty, vec![], None).unwrap();
    client.subscribe("t".to_owned(), 1, vec![], None).unwrap();
    let effects = client.dispatch(Message::Goodbye {
        details: vec![],
        reason: "wamp.close.system_shutdown".to_owned(),
    });
    assert_eq!(
        effects,
        vec![
            Effect::Send(Message::Goodbye {
                details: vec![],
                reason: "wamp.close.goodbye_and_out".to_owned(),
            }),
            lost(1),
            lost(2),
        ]
    );
    assert_eq!(client.state(), ClientState::Closed);
    assert_eq!(
        client.call("p".to_owned(), Payload::Empty, vec![], None),
        Err(WampError::NotConnected)
    );
}

#[test]
fn disconnect_sends_one_farewell_and_awaits_the_answer() {
    let mut client = established(0, 42);
    assert_eq!(
        client.disconnect(),
        Ok(Some(Message::Goodbye {
            details: vec![],
            reason: "wamp.close.close_realm".to_owned(),
        }))
    );
    assert_eq!(client.state(), ClientState::Closing);
    assert_eq!(client.disconnect(), Ok(None));
    assert_eq!(client.state(), ClientState::Closing);
    let effects = client.dispatch(Message::Goodbye {
        details: vec![],
        reason: "wamp.close.goodbye_and_out".to_owned(),
    });
    assert_eq!(effects, vec![Effect::Left]);
    assert_eq!(client.state(), ClientState::Closed);
    assert_eq!(client.disconnect(), Err(WampError::NotConnected));
}

#[test]
fn disconnect_without_a_session_is_not_connected() {
    let mut client = Client::new();
    assert_eq!(client.disconnect(), Err(WampError::NotConnected));
    client.connect();
    assert_eq!(client.disconnect(), Err(WampError::NotConnected));
    assert_eq!(client.state(), ClientState::Connecting);
}

#[test]
fn answers_still_arrive_while_leaving() {
    let mut client = established(0, 42);
    client.call("p".to_owned(), Payload::Empty, vec![], None).unwrap();
    client.disconnect().unwrap();
    assert_eq!(
        client.dispatch(Message::CallResult { request: 1, details: vec![], payload: Payload::Empty }),
        vec![Effect::Resolve {
            request: 1,
            outcome: Outcome::Returned { details: vec![], payload: Payload::Empty },
        }]
    );
    assert_eq!(client.state(), ClientState::Closing);
}

#[test]
fn close_timeout_closes_a_leaving_session() {
    let mut client = established(0, 42);
    client.call("p".to_owned(), Payload::Empty, vec![], None).unwrap();
    assert_eq!(client.close_timeout(), vec![]);
    assert_eq!(client.state(), ClientState::Established(42));
    client.disconnect().unwrap();
    assert_eq!(client.close_timeout(), vec![lost(1), Effect::Left]);
    assert_eq!(client.state(), ClientState::Closed);
}

#[test]
fn farewell_before_a_session_is_a_violation() {
    let mut client = Client::new();
    client.connect();
    client.hello("realm1".to_owned(), vec![]);
    let effects =
        client.dispatch(Message::Goodbye { details: vec![], reason: "x".to_owned() });
    assert_eq!(
        effects,
        vec![Effect::JoinFailed(WampError::ProtocolViolation), Effect::CloseTransport]
    );
    assert_eq!(client.state(), ClientState::Failed(Failure::ProtocolViolation));
}

#[test]
fn message_that_only_a_router_receives_is_a_violation() {
    let inbound = vec![
        Message::Hello { realm: "r".to_owned(), details: vec![] },
        Message::Call { request: 1, options: vec![], procedure: "p".to_owned(), payload: Payload::Empty },
        Message::Publish { request: 1, options: vec![], topic: "t".to_owned(), payload: Payload::Empty },
        Message::Subscribe { request: 1, options: vec![], topic: "t".to_owned() },
        Message::Unsubscribe { request: 1, subscription: 2 },
        Message::Register { request: 1, options: vec![], procedure: "p".to_owned() },
        Message::Unregister { request: 1, registration: 2 },
        Message::Yield { request: 1, options: vec![], payload: Payload::Empty },
    ];
    for message in inbound {
        let mut client = established(0, 42);
        assert_eq!(client.dispatch(message), vec![Effect::CloseTransport]);
        assert_eq!(client.state(), ClientState::Failed(Failure::ProtocolViolation));
    }
}

#[test]
fn abandon_forgets_a_request_that_was_not_sent() {
    let mut client = established(0, 42);
    client.call("p".to_owned(), Payload::Empty, vec![], None).unwrap();
    assert!(!client.abandon(RequestKind::Register, 1));
    assert!(client.is_pending(1));
    assert!(client.abandon(RequestKind::Call, 1));
    assert!(!client.is_pending(1));
    assert!(!client.abandon(RequestKind::Call, 1));
}

#[test]
fn session_loss_forgets_handlers_and_invocations() {
    let mut client = established(0, 42);
    client.register("sum".to_owned(), 33, vec![], None).unwrap();
    client.dispatch(Message::Registered { request: 1, registration: 5 });
    client.subscribe("t".to_owned(), 34, vec![], None).unwrap();
    client.dispatch(Message::Subscribed { request: 2, subscription: 6 });
    client.dispatch(Message::Invocation {
        request: 11,
        registration: 5,
        details: vec![],
        payload: Payload::Empty,
    });
    assert_eq!(client.fail(Failure::ReceiveFailed), vec![Effect::CloseTransport]);
    assert_eq!(client.take_registration(5), None);
    assert_eq!(client.take_subscription(6), None);
    assert_eq!(client.finish_invocation(11, HandlerResult::Done(Payload::Empty)), None);
}

#[test]
fn receive_dispatches_what_decodes() {
    let mut client = Client::new();
    client.connect();
    client.hello("realm1".to_owned(), vec![]);
    let effects = client.receive(vec![Arg::Integer(2), Arg::Integer(42), Arg::Dict(vec![])]);
    assert_eq!(effects, vec![Effect::Joined(42)]);
    assert_eq!(client.state(), ClientState::Established(42));
}
