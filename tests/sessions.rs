use mqtt_gateway::subscribe_session::RECEIVE_TIMEOUT_SECS;
use mqtt_gateway::{
    format_message, ConnectInfo, Error, Json, PublishAction, PublishRequest, PublishSession,
    ResponseBody, SubscribeAction, SubscribeEvent, SubscribeSession, Topic,
};

fn s(text: &str) -> Json {
    Json::Str(text.to_owned())
}

fn obj(members: Vec<(&str, Json)>) -> Json {
    Json::Object(members.into_iter().map(|(k, v)| (k.to_owned(), v)).collect())
}

fn two_brokers() -> PublishRequest {
    PublishRequest::from_document(Json::Array(vec![
        obj(vec![("host", s("first.com")), ("username", s("u")), ("password", s("p")), ("topic", s("door"))]),
        obj(vec![("host", s("second.com")), ("topic", s("light"))]),
    ]))
    .unwrap()
}

fn is_create(a: &PublishAction, url: &str) -> bool {
    matches!(a, PublishAction::CreateClient { url: u } if u.as_str() == url)
}

#[test]
fn failed_connect_stops_before_second_broker() {
    let mut session = PublishSession::new(two_brokers());
    assert!(is_create(&session.step(true), "tcp://first.com"));
    match session.step(true) {
        PublishAction::Connect { credentials: Some(c) } => assert_eq!(c.username, "u"),
        other => panic!("unexpected {:?}", other),
    }
    assert_eq!(session.step(false), PublishAction::Finish(Err(Error::BrokerConnection)));
    assert_eq!(session.step(true), PublishAction::Finish(Err(Error::BrokerConnection)));
    assert_eq!(Error::BrokerConnection.status_code(), 502);
}

#[test]
fn publish_runs_every_broker_in_order() {
    let mut session = PublishSession::new(two_brokers());
    assert!(is_create(&session.step(true), "tcp://first.com"));
    assert!(matches!(session.step(true), PublishAction::Connect { credentials: Some(_) }));
    assert_eq!(
        session.step(true),
        PublishAction::Publish { topic: "door".to_owned(), payload: vec![], qos: 2 }
    );
    assert_eq!(session.step(true), PublishAction::Disconnect);
    assert!(is_create(&session.step(true), "tcp://second.com"));
    assert_eq!(session.step(true), PublishAction::Connect { credentials: None });
    assert_eq!(
        session.step(true),
        PublishAction::Publish { topic: "light".to_owned(), payload: vec![], qos: 2 }
    );
    assert_eq!(session.step(true), PublishAction::Disconnect);
    assert_eq!(session.step(true), PublishAction::Finish(Ok(())));
}

#[test]
fn each_failing_operation_reports_its_kind() {
    let fail_at = |n: usize| {
        let mut session = PublishSession::new(two_brokers());
        for _ in 0..=n {
            session.step(true);
        }
        session.step(false)
    };
    assert_eq!(fail_at(0), PublishAction::Finish(Err(Error::ClientInformation)));
    assert_eq!(fail_at(1), PublishAction::Finish(Err(Error::BrokerConnection)));
    assert_eq!(fail_at(2), PublishAction::Finish(Err(Error::Publish)));
    assert_eq!(fail_at(3), PublishAction::Finish(Err(Error::Disconnect)));
}

#[test]
fn undecodable_payload_aborts_without_publishing() {
    let req = PublishRequest::from_document(obj(vec![
        ("host", s("b.com")),
        (
            "messages",
            Json::Array(vec![
                obj(vec![("topic", s("ok")), ("payload", s("x"))]),
                obj(vec![("topic", s("bad")), ("payloadType", s("base64")), ("payload", s("%%%"))]),
                obj(vec![("topic", s("never"))]),
            ]),
        ),
    ]))
    .unwrap();
    let mut session = PublishSession::new(req);
    assert!(is_create(&session.step(true), "tcp://b.com"));
    assert_eq!(session.step(true), PublishAction::Connect { credentials: None });
    assert_eq!(
        session.step(true),
        PublishAction::Publish { topic: "ok".to_owned(), payload: b"x".to_vec(), qos: 2 }
    );
    assert_eq!(session.step(true), PublishAction::Finish(Err(Error::Payload)));
}

fn subscriber(accept: Option<&str>) -> SubscribeSession {
    let info = ConnectInfo::from_headers(Some("b.com"), None, None).unwrap();
    SubscribeSession::new(info, Topic::from_path("/door").unwrap(), accept)
}

fn subscribe_until_waiting(session: &mut SubscribeSession) {
    assert!(matches!(session.step(SubscribeEvent::Succeeded), SubscribeAction::CreateClient { .. }));
    assert_eq!(session.step(SubscribeEvent::Succeeded), SubscribeAction::Connect { credentials: None });
    assert_eq!(
        session.step(SubscribeEvent::Succeeded),
        SubscribeAction::Subscribe { topic: "door".to_owned(), qos: 2 }
    );
    assert_eq!(session.step(SubscribeEvent::Succeeded), SubscribeAction::Await { timeout_secs: 300 });
}

#[test]
fn silent_broker_times_out_after_five_minutes() {
    let mut session = subscriber(None);
    subscribe_until_waiting(&mut session);
    assert_eq!(RECEIVE_TIMEOUT_SECS, 5 * 60);
    assert_eq!(session.step(SubscribeEvent::TimedOut), SubscribeAction::Disconnect);
    let end = session.step(SubscribeEvent::Succeeded);
    assert_eq!(end, SubscribeAction::Finish(Err(Error::PublishTimeout)));
    assert_eq!(Error::PublishTimeout.status_code(), 504);
    assert!(session.is_finished());
}

#[test]
fn closed_stream_is_a_reception_failure() {
    let mut session = subscriber(None);
    subscribe_until_waiting(&mut session);
    assert_eq!(session.step(SubscribeEvent::Closed), SubscribeAction::Disconnect);
    assert_eq!(session.step(SubscribeEvent::Failed), SubscribeAction::Finish(Err(Error::MessageReception)));
}

#[test]
fn received_message_as_text() {
    let mut session = subscriber(Some("text/plain"));
    subscribe_until_waiting(&mut session);
    let event = SubscribeEvent::Received { topic: "door".to_owned(), payload: b"open".to_vec() };
    assert_eq!(session.step(event), SubscribeAction::Disconnect);
    match session.step(SubscribeEvent::Succeeded) {
        SubscribeAction::Finish(Ok(r)) => {
            assert_eq!(r.topic, "door");
            assert_eq!(r.body, ResponseBody::Text("open".to_owned()));
        },
        other => panic!("unexpected {:?}", other),
    }
}

#[test]
fn received_message_as_bytes() {
    let mut session = subscriber(Some("application/octet-stream"));
    subscribe_until_waiting(&mut session);
    let event = SubscribeEvent::Received { topic: "door".to_owned(), payload: vec![0xff, 1] };
    assert_eq!(session.step(event), SubscribeAction::Disconnect);
    match session.step(SubscribeEvent::Succeeded) {
        SubscribeAction::Finish(Ok(r)) => assert_eq!(r.body, ResponseBody::Binary(vec![0xff, 1])),
        other => panic!("unexpected {:?}", other),
    }
}

#[test]
fn failed_disconnect_after_message() {
    let mut session = subscriber(None);
    subscribe_until_waiting(&mut session);
    let event = SubscribeEvent::Received { topic: "door".to_owned(), payload: vec![1] };
    assert_eq!(session.step(event), SubscribeAction::Disconnect);
    assert_eq!(session.step(SubscribeEvent::Failed), SubscribeAction::Finish(Err(Error::Disconnect)));
}

#[test]
fn subscription_failure() {
    let mut session = subscriber(None);
    session.step(SubscribeEvent::Succeeded);
    session.step(SubscribeEvent::Succeeded);
    session.step(SubscribeEvent::Succeeded);
    assert_eq!(session.step(SubscribeEvent::Failed), SubscribeAction::Finish(Err(Error::Subscription)));
}

#[test]
fn text_format_replaces_invalid_utf8() {
    let r = format_message(Some("text/plain"), "t".to_owned(), vec![b'a', 0xff]);
    assert_eq!(r.body, ResponseBody::Text("a\u{FFFD}".to_owned()));
    let r = format_message(None, "t".to_owned(), vec![b'a', 0xff]);
    assert_eq!(r.body, ResponseBody::Binary(vec![b'a', 0xff]));
}
