use mqtt_gateway::connect_info::credentials_from;
use mqtt_gateway::publish::{body_length_accepted, is_json_content, MAX_PAYLOAD_SIZE};
use mqtt_gateway::{
    parse_url_with_default, ConnectInfo, Error, Json, JsonNumber, Message, MessageGroup, Payload,
    PublishRequest, Topic, TypedPayload, UrlError,
};

fn s(text: &str) -> Json {
    Json::Str(text.to_owned())
}

fn num(n: u64) -> Json {
    Json::Number(JsonNumber::PosInt(n))
}

fn obj(members: Vec<(&str, Json)>) -> Json {
    Json::Object(members.into_iter().map(|(k, v)| (k.to_owned(), v)).collect())
}

fn only_broker(req: PublishRequest) -> mqtt_gateway::Broker {
    match req {
        PublishRequest::Single(b) => b,
        PublishRequest::Multiple(_) => panic!("expected one broker"),
    }
}

#[test]
fn bare_host_gets_tcp_scheme() {
    let u = parse_url_with_default("broker.com").unwrap();
    assert_eq!(u.as_str(), url::Url::parse("tcp://broker.com").unwrap().as_str());
    assert_eq!(u.as_str(), "tcp://broker.com");
}

#[test]
fn explicit_scheme_is_kept() {
    assert_eq!(
        parse_url_with_default("ws://broker.com:9001").unwrap().as_str(),
        url::Url::parse("ws://broker.com:9001").unwrap().as_str()
    );
    assert_eq!(parse_url_with_default("mqtt://b").unwrap().as_str(), "mqtt://b");
}

#[test]
fn malformed_url_is_refused() {
    assert_eq!(parse_url_with_default("tcp://broker.com:99999"), Err(UrlError::Invalid));
    assert_eq!(parse_url_with_default("[::1"), Err(UrlError::Invalid));
}

#[test]
fn address_aliases_are_equivalent() {
    let read = |key: &str| {
        PublishRequest::from_document(obj(vec![(key, s("broker.com")), ("topic", s("door"))])).unwrap()
    };
    let by_broker = read("broker");
    assert_eq!(by_broker, read("host"));
    assert_eq!(by_broker, read("hostname"));
    assert_eq!(by_broker, read("url"));
    assert_eq!(only_broker(by_broker).url.as_str(), "tcp://broker.com");
}

#[test]
fn two_address_keys_are_refused() {
    assert!(PublishRequest::from_document(obj(vec![
        ("broker", s("a.com")),
        ("host", s("b.com")),
        ("topic", s("door")),
    ]))
    .is_none());
    assert!(PublishRequest::from_document(obj(vec![("topic", s("door"))])).is_none());
}

#[test]
fn qos_in_range_is_kept() {
    for q in 0..=2u64 {
        let m = Message::from_document(obj(vec![("topic", s("door")), ("qos", num(q))])).unwrap();
        assert_eq!(m.qos as u64, q);
    }
}

#[test]
fn qos_out_of_range_is_refused() {
    assert!(Message::from_document(obj(vec![("topic", s("door")), ("qos", num(3))])).is_none());
    let negative = Json::Number(JsonNumber::NegInt(-1));
    assert!(Message::from_document(obj(vec![("topic", s("door")), ("qos", negative)])).is_none());
    let float = Json::Number(JsonNumber::Float("1.0".to_owned()));
    assert!(Message::from_document(obj(vec![("topic", s("door")), ("qos", float)])).is_none());
    assert!(Message::from_document(obj(vec![("topic", s("door")), ("qos", s("1"))])).is_none());
}

#[test]
fn bad_qos_rejects_whole_array() {
    let good = obj(vec![("host", s("a.com")), ("topic", s("door"))]);
    let bad = obj(vec![("host", s("b.com")), ("topic", s("door")), ("qos", num(7))]);
    assert!(PublishRequest::from_document(Json::Array(vec![good, bad])).is_none());
}

#[test]
fn empty_topic_is_refused() {
    assert!(Message::from_document(obj(vec![("topic", s(""))])).is_none());
    assert!(Message::from_document(obj(vec![("topic", num(1))])).is_none());
}

#[test]
fn group_shapes_give_one_door_message() {
    let flat = obj(vec![("host", s("b")), ("topic", s("door"))]);
    let wrapped = obj(vec![("host", s("b")), ("message", obj(vec![("topic", s("door"))]))]);
    let listed = obj(vec![("host", s("b")), ("messages", Json::Array(vec![obj(vec![("topic", s("door"))])]))]);
    let aliased = obj(vec![("host", s("b")), ("message", Json::Array(vec![obj(vec![("topic", s("door"))])]))]);
    for doc in [flat, wrapped, listed, aliased] {
        let b = only_broker(PublishRequest::from_document(doc).unwrap());
        let ms = b.messages.into_messages();
        assert_eq!(ms.len(), 1);
        assert_eq!(ms[0].topic, "door");
        assert_eq!(ms[0].qos, 2);
        assert_eq!(ms[0].payload(), Some(Vec::new()));
    }
}

#[test]
fn flat_shape_wins_over_list() {
    let doc = obj(vec![
        ("host", s("b")),
        ("topic", s("door")),
        ("messages", Json::Array(vec![obj(vec![("topic", s("light"))])])),
    ]);
    let b = only_broker(PublishRequest::from_document(doc).unwrap());
    assert!(matches!(b.messages, MessageGroup::Flat(_)));
}

#[test]
fn message_and_messages_lists_together_are_refused() {
    let list = || Json::Array(vec![obj(vec![("topic", s("door"))])]);
    let doc = obj(vec![("host", s("b")), ("message", list()), ("messages", list())]);
    assert!(PublishRequest::from_document(doc).is_none());
}

#[test]
fn empty_array_is_an_empty_request() {
    let req = PublishRequest::from_document(Json::Array(vec![])).unwrap();
    assert!(req.into_brokers().is_empty());
}

#[test]
fn non_object_documents_are_refused() {
    assert!(PublishRequest::from_document(s("broker.com")).is_none());
    assert!(PublishRequest::from_document(Json::Null).is_none());
    assert!(PublishRequest::from_document(Json::Array(vec![num(1)])).is_none());
}

#[test]
fn half_credentials_mean_none() {
    assert_eq!(credentials_from(Some("u"), None), None);
    assert_eq!(credentials_from(None, Some("p")), None);
    let c = credentials_from(Some("u"), Some("p")).unwrap();
    assert_eq!((c.username.as_str(), c.password.as_str()), ("u", "p"));
    let doc = obj(vec![("host", s("b")), ("username", s("u")), ("password", num(5)), ("topic", s("door"))]);
    assert_eq!(only_broker(PublishRequest::from_document(doc).unwrap()).credentials, None);
}

#[test]
fn raw_payload_is_taken_verbatim() {
    let m = Message::from_document(obj(vec![
        ("topic", s("door")),
        ("payloadType", s("raw")),
        ("payload", Json::Array(vec![num(0), num(255), num(7)])),
    ]))
    .unwrap();
    assert_eq!(m.payload, Some(Payload::Specified(TypedPayload::Raw(vec![0, 255, 7]))));
    assert_eq!(m.payload(), Some(vec![0, 255, 7]));
}

#[test]
fn raw_payload_out_of_byte_range_is_no_payload() {
    let m = Message::from_document(obj(vec![
        ("topic", s("door")),
        ("payloadType", s("raw")),
        ("payload", Json::Array(vec![num(256)])),
    ]))
    .unwrap();
    assert_eq!(m.payload, None);
}

#[test]
fn typed_shape_mismatch_falls_back_to_untyped() {
    let m = Message::from_document(obj(vec![
        ("topic", s("door")),
        ("payloadType", s("raw")),
        ("payload", s("abc")),
    ]))
    .unwrap();
    assert_eq!(m.payload, Some(Payload::Unspecified { payload: "abc".to_owned() }));
    assert_eq!(m.payload(), Some(b"abc".to_vec()));
}

#[test]
fn non_string_payload_type_is_unsupported() {
    let m = Message::from_document(obj(vec![("topic", s("door")), ("payloadType", num(1)), ("payload", s("x"))])).unwrap();
    assert_eq!(m.payload, Some(Payload::Unsupported));
    assert_eq!(m.payload(), None);
}

#[test]
fn invalid_base64_is_a_decode_failure() {
    let m = Message::from_document(obj(vec![
        ("topic", s("door")),
        ("payloadType", s("base64")),
        ("payload", s("not base64!")),
    ]))
    .unwrap();
    assert_eq!(m.payload(), None);
}

#[test]
fn json_payload_matches_serde_text() {
    let text = r#"{"a":[1,-2,"x\"y\n",null,false,1.5],"b":{"c":[]},"d":18446744073709551615}"#;
    let value: serde_json::Value = serde_json::from_str(text).unwrap();
    let payload = obj(vec![
        (
            "a",
            Json::Array(vec![
                num(1),
                Json::Number(JsonNumber::NegInt(-2)),
                s("x\"y\n"),
                Json::Null,
                Json::Bool(false),
                Json::Number(JsonNumber::Float("1.5".to_owned())),
            ]),
        ),
        ("b", obj(vec![("c", Json::Array(vec![]))])),
        ("d", num(u64::MAX)),
    ]);
    let m = Message::from_document(obj(vec![("topic", s("t")), ("payloadType", s("json")), ("payload", payload)])).unwrap();
    assert_eq!(m.payload(), Some(value.to_string().into_bytes()));
}

#[test]
fn json_payload_may_be_a_plain_string() {
    let m = Message::from_document(obj(vec![("topic", s("t")), ("payloadType", s("json")), ("payload", s("open"))])).unwrap();
    assert_eq!(m.payload(), Some(b"\"open\"".to_vec()));
}

#[test]
fn topic_from_path_strips_leading_slashes() {
    assert_eq!(Topic::from_path("/door").unwrap(), Topic("door".to_owned()));
    assert_eq!(Topic::from_path("//house/door").unwrap(), Topic("house/door".to_owned()));
    assert_eq!(Topic::from_path("/a/").unwrap(), Topic("a/".to_owned()));
    assert_eq!(Topic::from_path("/"), Err(Error::Topic));
    assert_eq!(Topic::from_path(""), Err(Error::Topic));
}

#[test]
fn connect_info_from_headers() {
    assert_eq!(ConnectInfo::from_headers(None, Some("u"), Some("p")), Err(Error::Header));
    assert_eq!(ConnectInfo::from_headers(Some("tcp://b.com:99999"), None, None), Err(Error::BrokerUrl));
    let info = ConnectInfo::from_headers(Some("b.com"), Some("u"), None).unwrap();
    assert_eq!(info.broker.as_str(), "tcp://b.com");
    assert_eq!(info.credentials, None);
}

#[test]
fn header_mode_builds_one_raw_message() {
    let req = PublishRequest::from_headers(Some("b.com"), Some("u"), Some("p"), "/door", Some(3), vec![1, 2, 3]).unwrap();
    let b = only_broker(req);
    assert_eq!(b.url.as_str(), "tcp://b.com");
    assert_eq!(b.credentials.as_ref().unwrap().username, "u");
    match b.messages {
        MessageGroup::Flat(m) => {
            assert_eq!(m.topic, "door");
            assert_eq!(m.qos, 2);
            assert_eq!(m.payload, Some(Payload::Specified(TypedPayload::Raw(vec![1, 2, 3]))));
        },
        _ => panic!("expected a flat message"),
    }
}

#[test]
fn header_mode_errors_in_order() {
    assert_eq!(PublishRequest::from_headers(None, None, None, "/", None, vec![]), Err(Error::Header));
    assert_eq!(PublishRequest::from_headers(Some("tcp://b.com:99999"), None, None, "/", None, vec![]), Err(Error::BrokerUrl));
    assert_eq!(PublishRequest::from_headers(Some("b.com"), None, None, "/", None, vec![]), Err(Error::Topic));
    assert_eq!(PublishRequest::from_headers(Some("b.com"), None, None, "/t", None, vec![]), Err(Error::BodySize));
    assert_eq!(
        PublishRequest::from_headers(Some("b.com"), None, None, "/t", Some(MAX_PAYLOAD_SIZE + 1), vec![]),
        Err(Error::BodySize)
    );
}

#[test]
fn body_length_limit() {
    assert!(body_length_accepted(Some(0)));
    assert!(body_length_accepted(Some(16_777_216)));
    assert!(!body_length_accepted(Some(16_777_217)));
    assert!(!body_length_accepted(None));
}

#[test]
fn structured_mode_errors_are_json_format() {
    let doc = || obj(vec![("host", s("b")), ("topic", s("door"))]);
    assert!(PublishRequest::from_json_body(Some(10), Some(doc())).is_ok());
    assert_eq!(PublishRequest::from_json_body(None, Some(doc())), Err(Error::JsonFormat));
    assert_eq!(PublishRequest::from_json_body(Some(MAX_PAYLOAD_SIZE + 1), Some(doc())), Err(Error::JsonFormat));
    assert_eq!(PublishRequest::from_json_body(Some(10), None), Err(Error::JsonFormat));
    assert_eq!(PublishRequest::from_json_body(Some(10), Some(s("x"))), Err(Error::JsonFormat));
}

#[test]
fn json_content_type_selects_structured_mode() {
    assert!(is_json_content(Some("application/json")));
    assert!(!is_json_content(Some("text/plain")));
    assert!(!is_json_content(Some("application/json; charset=utf-8")));
    assert!(!is_json_content(None));
}

#[test]
fn error_status_and_text() {
    let cases = [
        (Error::ClientInformation, 400, "invalid mqtt client information"),
        (Error::BrokerConnection, 502, "broker connection failed"),
        (Error::Subscription, 502, "topic subscription failed"),
        (Error::PublishTimeout, 504, "no message received before timeout"),
        (Error::MessageReception, 502, "message reception failed"),
        (Error::Payload, 400, "invalid message payload"),
        (Error::Publish, 502, "publish failed"),
        (Error::Disconnect, 502, "disconnection failure"),
        (Error::Header, 400, "missing or invalid header"),
        (Error::BrokerUrl, 400, "invalid broker url"),
        (Error::JsonFormat, 400, "invalid json format or payload too large"),
        (Error::BodySize, 413, "body too large"),
        (Error::Topic, 400, "invalid topic path"),
    ];
    for (e, status, text) in cases {
        assert_eq!(e.status_code(), status);
        assert_eq!(e.message(), text);
    }
}
