//! The publish request model and the parser that builds it from a JSON document or
//! from the headers, path and body of a plain HTTP request.
use vstd::prelude::*;
use vstd::utf8::encode_utf8;

use crate::broker_url::{normalized_url, parse_url_with_default, BrokerUrl};
use crate::connect_info::{
    credentials_spec, credentials_view, opt_str_view, strip_leading_slashes, ConnectInfo,
    Credentials, Topic,
};
use crate::error::Error;
use crate::json::{json_text, lookup, write_json, Json, JsonNumber};
use crate::members::{lemma_key_lengths, sort_members};

verus! {

/// The delivery guarantee used where a message names none.
pub const DEFAULT_QOS: i32 = 2;

/// The largest body the gateway reads, in bytes.
pub const MAX_PAYLOAD_SIZE: u64 = 16777216;

/// A payload whose encoding is declared by `payloadType`.
#[derive(PartialEq, Eq, Debug)]
pub enum TypedPayload {
    String(String),
    Json(Json),
    Base64(String),
    Raw(Vec<u8>),
}

/// How a message's payload was given.
#[derive(PartialEq, Eq, Debug)]
pub enum Payload {
    /// A declared encoding with a value of the form it takes.
    Specified(TypedPayload),
    /// A bare string, sent as its UTF-8 bytes.
    Unspecified { payload: String },
    /// A `payloadType` that names no encoding the gateway knows; it cannot be sent.
    Unsupported,
}

/// One message to publish.
#[derive(PartialEq, Eq, Debug)]
pub struct Message {
    pub topic: String,
    pub payload: Option<Payload>,
    pub qos: i32,
}

/// The messages of one broker, in one of the three shapes a document may give them.
#[derive(PartialEq, Eq, Debug)]
pub enum MessageGroup {
    Flat(Message),
    Single { message: Message },
    Multiple { messages: Vec<Message> },
}

/// One broker, how to log in to it, and what to publish there.
#[derive(PartialEq, Eq, Debug)]
pub struct Broker {
    pub url: BrokerUrl,
    pub credentials: Option<Credentials>,
    pub messages: MessageGroup,
}

/// A publish request: one broker, or several handled one after another in order.
#[derive(PartialEq, Eq, Debug)]
pub enum PublishRequest {
    Single(Broker),
    Multiple(Vec<Broker>),
}

/// The text a JSON value holds, if it is a string.
pub open spec fn json_str_view(v: Option<Json>) -> Option<Seq<char>> {
    match v {
        Some(Json::Str(s)) => Some(s@),
        _ => None,
    }
}

/// The delivery guarantee a `qos` member gives: absent means the default; otherwise an
/// integer from 0 to 2. Anything else is refused, never clamped.
pub open spec fn qos_of(v: Option<Json>) -> Option<i32> {
    match v {
        None => Some(DEFAULT_QOS),
        Some(Json::Number(JsonNumber::PosInt(n))) => if n <= 2 {
            Some(n as i32)
        } else {
            None
        },
        _ => None,
    }
}

/// The encodings a `payloadType` may name.
pub open spec fn is_payload_kind(tag: Seq<char>) -> bool {
    tag == "string"@ || tag == "json"@ || tag == "base64"@ || tag == "raw"@
}

pub open spec fn byte_of(v: Json) -> Option<u8> {
    match v {
        Json::Number(JsonNumber::PosInt(n)) => if n <= 255 {
            Some(n as u8)
        } else {
            None
        },
        _ => None,
    }
}

/// Whether every item is an integer from 0 to 255.
pub open spec fn all_bytes(items: Seq<Json>) -> bool {
    forall|i: int| 0 <= i < items.len() ==> (#[trigger] byte_of(items[i])) is Some
}

pub open spec fn bytes_of(items: Seq<Json>) -> Seq<u8> {
    Seq::new(items.len(), |i: int| byte_of(items[i])->0)
}

/// Whether `payload` has the form that the encoding `tag` takes: a string for `string`
/// and `base64`, an array of bytes for `raw`, any value for `json`.
pub open spec fn typed_shape(tag: Seq<char>, payload: Option<Json>) -> bool {
    match payload {
        Some(Json::Str(_)) => tag == "string"@ || tag == "json"@ || tag == "base64"@,
        Some(Json::Array(items)) => tag == "json"@ || (tag == "raw"@ && all_bytes(items@)),
        Some(_) => tag == "json"@,
        None => false,
    }
}

/// The typed payload of encoding `tag` made from a value of the right form.
pub open spec fn typed_payload_is(tag: Seq<char>, payload: Json, r: TypedPayload) -> bool {
    if tag == "string"@ {
        payload is Str && r == TypedPayload::String(payload->Str_0)
    } else if tag == "json"@ {
        r == TypedPayload::Json(payload)
    } else if tag == "base64"@ {
        payload is Str && r == TypedPayload::Base64(payload->Str_0)
    } else {
        payload is Array && r is Raw && r->Raw_0@ == bytes_of(payload->Array_0@)
    }
}

/// The untyped shape: a bare string payload; anything else is no payload.
pub open spec fn untyped_payload_is(payload: Option<Json>, r: Option<Payload>) -> bool {
    match payload {
        Some(Json::Str(s)) => r == Some(Payload::Unspecified { payload: s }),
        _ => r is None,
    }
}

/// The payload a message's `payloadType` and `payload` members give. The typed shape
/// is tried first, since every typed document with a string payload also has the
/// untyped shape. A `payloadType` that names no known encoding is kept as unsupported
/// rather than read as a string.
pub open spec fn payload_is(payload_type: Option<Json>, payload: Option<Json>, r: Option<Payload>) -> bool {
    match payload_type {
        Some(Json::Str(tag)) => if !is_payload_kind(tag@) {
            r == Some(Payload::Unsupported)
        } else if typed_shape(tag@, payload) {
            r is Some && r->0 is Specified && typed_payload_is(tag@, payload->0, r->0->Specified_0)
        } else {
            untyped_payload_is(payload, r)
        },
        Some(_) => r == Some(Payload::Unsupported),
        None => untyped_payload_is(payload, r),
    }
}

/// Whether the members of a message make one: a non-empty topic and a valid qos.
pub open spec fn message_accepts(topic: Option<Json>, qos: Option<Json>) -> bool {
    &&& json_str_view(topic) is Some
    &&& json_str_view(topic)->0.len() > 0
    &&& qos_of(qos) is Some
}

/// The message that the members of a message object make.
pub open spec fn message_is(topic: Option<Json>, payload: Option<Json>, payload_type: Option<Json>, qos: Option<Json>, m: Message) -> bool {
    &&& topic == Some(Json::Str(m.topic))
    &&& qos_of(qos) == Some(m.qos)
    &&& payload_is(payload_type, payload, m.payload)
}

pub open spec fn object_message_accepts(v: Json) -> bool {
    match v {
        Json::Object(ms) => message_accepts(lookup(ms@, "topic"@), lookup(ms@, "qos"@)),
        _ => false,
    }
}

pub open spec fn object_message_is(v: Json, m: Message) -> bool {
    match v {
        Json::Object(ms) => message_is(
            lookup(ms@, "topic"@),
            lookup(ms@, "payload"@),
            lookup(ms@, "payloadType"@),
            lookup(ms@, "qos"@),
            m,
        ),
        _ => false,
    }
}

pub open spec fn messages_accept(items: Seq<Json>) -> bool {
    forall|i: int| 0 <= i < items.len() ==> object_message_accepts(#[trigger] items[i])
}

pub open spec fn messages_are(items: Seq<Json>, ms: Seq<Message>) -> bool {
    &&& ms.len() == items.len()
    &&& forall|i: int| 0 <= i < items.len() ==> object_message_is(#[trigger] items[i], ms[i])
}

/// Whether a broker object holds messages in one of the three shapes, tried in order:
/// the message members flat in the object, one object under `message`, or an array
/// under `messages` (or under `message`, but not under both).
pub open spec fn group_accepts(topic: Option<Json>, qos: Option<Json>, message: Option<Json>, messages: Option<Json>) -> bool {
    if message_accepts(topic, qos) {
        true
    } else {
        match message {
            Some(Json::Object(o)) => object_message_accepts(Json::Object(o)),
            Some(Json::Array(items)) => messages is None && messages_accept(items@),
            Some(_) => false,
            None => match messages {
                Some(Json::Array(items)) => messages_accept(items@),
                _ => false,
            },
        }
    }
}

/// The message group of the first shape that matches.
pub open spec fn group_is(
    topic: Option<Json>,
    payload: Option<Json>,
    payload_type: Option<Json>,
    qos: Option<Json>,
    message: Option<Json>,
    messages: Option<Json>,
    g: MessageGroup,
) -> bool {
    if message_accepts(topic, qos) {
        g is Flat && message_is(topic, payload, payload_type, qos, g->Flat_0)
    } else {
        match message {
            Some(Json::Object(o)) => g is Single && object_message_is(Json::Object(o), g->Single_message),
            Some(Json::Array(items)) => g is Multiple && messages_are(items@, g->Multiple_messages@),
            Some(_) => false,
            None => match messages {
                Some(Json::Array(items)) => g is Multiple && messages_are(items@, g->Multiple_messages@),
                _ => false,
            },
        }
    }
}

/// The broker address member: exactly one of `url`, `broker`, `host` and `hostname`.
pub open spec fn url_member(ms: Seq<(String, Json)>) -> Option<Json> {
    let a = lookup(ms, "url"@);
    let b = lookup(ms, "broker"@);
    let c = lookup(ms, "host"@);
    let d = lookup(ms, "hostname"@);
    if a is Some && b is None && c is None && d is None {
        a
    } else if a is None && b is Some && c is None && d is None {
        b
    } else if a is None && b is None && c is Some && d is None {
        c
    } else if a is None && b is None && c is None && d is Some {
        d
    } else {
        None
    }
}

/// The broker URL of a broker object: its address member, a string, normalized.
pub open spec fn broker_url_of(ms: Seq<(String, Json)>) -> Option<Seq<char>> {
    match json_str_view(url_member(ms)) {
        Some(s) => match normalized_url(s) {
            Ok(u) => Some(u),
            Err(_) => None,
        },
        None => None,
    }
}

pub open spec fn broker_accepts(v: Json) -> bool {
    match v {
        Json::Object(ms) => broker_url_of(ms@) is Some && group_accepts(
            lookup(ms@, "topic"@),
            lookup(ms@, "qos"@),
            lookup(ms@, "message"@),
            lookup(ms@, "messages"@),
        ),
        _ => false,
    }
}

pub open spec fn broker_is(v: Json, b: Broker) -> bool {
    match v {
        Json::Object(ms) => {
            &&& broker_url_of(ms@) == Some(b.url@)
            &&& credentials_view(b.credentials) == credentials_spec(
                json_str_view(lookup(ms@, "username"@)),
                json_str_view(lookup(ms@, "password"@)),
            )
            &&& group_is(
                lookup(ms@, "topic"@),
                lookup(ms@, "payload"@),
                lookup(ms@, "payloadType"@),
                lookup(ms@, "qos"@),
                lookup(ms@, "message"@),
                lookup(ms@, "messages"@),
                b.messages,
            )
        },
        _ => false,
    }
}

/// Whether a document is a publish request: one broker object, or an array of them.
pub open spec fn request_accepts(doc: Json) -> bool {
    match doc {
        Json::Object(_) => broker_accepts(doc),
        Json::Array(items) => forall|i: int| 0 <= i < items@.len() ==> broker_accepts(#[trigger] items@[i]),
        _ => false,
    }
}

pub open spec fn request_is(doc: Json, r: PublishRequest) -> bool {
    match doc {
        Json::Object(_) => r is Single && broker_is(doc, r->Single_0),
        Json::Array(items) => r is Multiple && r->Multiple_0@.len() == items@.len() && forall|i: int|
            0 <= i < items@.len() ==> broker_is(#[trigger] items@[i], r->Multiple_0@[i]),
        _ => false,
    }
}

/// The same items in the opposite order.
pub(crate) fn reversed<T>(v: Vec<T>) -> (r: Vec<T>)
    ensures
        r@.len() == v@.len(),
        forall|j: int| 0 <= j < v@.len() ==> r@[j] == v@[v@.len() - 1 - j],
{
    let ghost orig = v@;
    let mut v = v;
    let mut r: Vec<T> = Vec::new();
    while v.len() > 0
        invariant
            r@.len() + v@.len() == orig.len(),
            v@ == orig.take(v@.len() as int),
            forall|j: int| 0 <= j < r@.len() ==> r@[j] == orig[orig.len() - 1 - j],
        decreases v@.len(),
    {
        if let Some(x) = v.pop() {
            r.push(x);
        }
    }
    r
}

fn qos_from(v: Option<Json>) -> (r: Option<i32>)
    ensures
        r == qos_of(v),
{
    match v {
        None => Some(DEFAULT_QOS),
        Some(Json::Number(JsonNumber::PosInt(n))) => if n <= 2 {
            Some(n as i32)
        } else {
            None
        },
        _ => None,
    }
}

fn bytes_from(items: &Vec<Json>) -> (r: Option<Vec<u8>>)
    ensures
        r is Some <==> all_bytes(items@),
        r is Some ==> r->0@ == bytes_of(items@),
{
    let mut out: Vec<u8> = Vec::new();
    let mut i: usize = 0;
    while i < items.len()
        invariant
            i <= items@.len(),
            out@.len() == i,
            forall|j: int| 0 <= j < i ==> (#[trigger] byte_of(items@[j])) is Some && out@[j] == byte_of(items@[j])->0,
        decreases items@.len() - i,
    {
        match &items[i] {
            Json::Number(JsonNumber::PosInt(n)) => {
                if *n <= 255 {
                    out.push(*n as u8);
                } else {
                    assert(byte_of(items@[i as int]) is None);
                    return None;
                }
            },
            _ => {
                assert(byte_of(items@[i as int]) is None);
                return None;
            },
        }
        i = i + 1;
    }
    assert(out@ =~= bytes_of(items@));
    Some(out)
}

proof fn lemma_kind_names()
    ensures
        "string"@.len() == 6,
        "json"@.len() == 4,
        "base64"@.len() == 6,
        "raw"@.len() == 3,
        "string"@[0] != "base64"@[0],
{
    reveal_strlit("string");
    reveal_strlit("json");
    reveal_strlit("base64");
    reveal_strlit("raw");
}

fn payload_from(payload_type: Option<Json>, payload: Option<Json>) -> (r: Option<Payload>)
    ensures
        payload_is(payload_type, payload, r),
{
    proof {
        lemma_kind_names();
    }
    let tag = match payload_type {
        Some(Json::Str(tag)) => tag,
        Some(_) => return Some(Payload::Unsupported),
        None => {
            return match payload {
                Some(Json::Str(s)) => Some(Payload::Unspecified { payload: s }),
                _ => None,
            };
        },
    };
    let k_string = String::from_str("string");
    let k_json = String::from_str("json");
    let k_base64 = String::from_str("base64");
    let k_raw = String::from_str("raw");
    if tag == k_string {
        match payload {
            Some(Json::Str(s)) => Some(Payload::Specified(TypedPayload::String(s))),
            _ => None,
        }
    } else if tag == k_json {
        match payload {
            Some(v) => Some(Payload::Specified(TypedPayload::Json(v))),
            None => None,
        }
    } else if tag == k_base64 {
        match payload {
            Some(Json::Str(s)) => Some(Payload::Specified(TypedPayload::Base64(s))),
            _ => None,
        }
    } else if tag == k_raw {
        match payload {
            Some(Json::Str(s)) => Some(Payload::Unspecified { payload: s }),
            Some(Json::Array(items)) => match bytes_from(&items) {
                Some(bytes) => Some(Payload::Specified(TypedPayload::Raw(bytes))),
                None => None,
            },
            _ => None,
        }
    } else {
        Some(Payload::Unsupported)
    }
}

fn message_from(topic: Option<Json>, payload: Option<Json>, payload_type: Option<Json>, qos: Option<Json>) -> (r: Option<Message>)
    ensures
        r is Some <==> message_accepts(topic, qos),
        r is Some ==> message_is(topic, payload, payload_type, qos, r->0),
{
    let qos = match qos_from(qos) {
        Some(q) => q,
        None => return None,
    };
    let topic = match topic {
        Some(Json::Str(t)) => t,
        _ => return None,
    };
    if topic.as_str().unicode_len() == 0 {
        return None;
    }
    Some(Message { topic, payload: payload_from(payload_type, payload), qos })
}

fn message_from_object(v: Json) -> (r: Option<Message>)
    ensures
        r is Some <==> object_message_accepts(v),
        r is Some ==> object_message_is(v, r->0),
{
    match v {
        Json::Object(members) => {
            let m = sort_members(members);
            message_from(m.topic, m.payload, m.payload_type, m.qos)
        },
        _ => None,
    }
}

fn messages_from_array(items: Vec<Json>) -> (r: Option<Vec<Message>>)
    ensures
        r is Some <==> messages_accept(items@),
        r is Some ==> messages_are(items@, r->0@),
{
    let ghost orig = items@;
    let mut rest = reversed(items);
    let mut out: Vec<Message> = Vec::new();
    while rest.len() > 0
        invariant
            orig == items@,
            out@.len() + rest@.len() == orig.len(),
            forall|j: int| 0 <= j < rest@.len() ==> rest@[j] == orig[orig.len() - 1 - j],
            forall|i: int| 0 <= i < out@.len() ==> object_message_accepts(#[trigger] orig[i]),
            forall|i: int| 0 <= i < out@.len() ==> object_message_is(#[trigger] orig[i], out@[i]),
        decreases rest@.len(),
    {
        let ghost k = out@.len() as int;
        if let Some(item) = rest.pop() {
            assert(item == orig[k]);
            match message_from_object(item) {
                Some(m) => out.push(m),
                None => {
                    assert(!object_message_accepts(orig[k]));
                    return None;
                },
            }
        }
    }
    Some(out)
}

fn group_from(
    topic: Option<Json>,
    payload: Option<Json>,
    payload_type: Option<Json>,
    qos: Option<Json>,
    message: Option<Json>,
    messages: Option<Json>,
) -> (r: Option<MessageGroup>)
    ensures
        r is Some <==> group_accepts(topic, qos, message, messages),
        r is Some ==> group_is(topic, payload, payload_type, qos, message, messages, r->0),
{
    let flat_ok = match (&topic, qos_from_ref(&qos)) {
        (Some(Json::Str(t)), true) => t.as_str().unicode_len() > 0,
        _ => false,
    };
    if flat_ok {
        return match message_from(topic, payload, payload_type, qos) {
            Some(m) => Some(MessageGroup::Flat(m)),
            None => None,
        };
    }
    match message {
        Some(Json::Object(o)) => match message_from_object(Json::Object(o)) {
            Some(m) => Some(MessageGroup::Single { message: m }),
            None => None,
        },
        Some(Json::Array(items)) => {
            if messages.is_some() {
                return None;
            }
            match messages_from_array(items) {
                Some(ms) => Some(MessageGroup::Multiple { messages: ms }),
                None => None,
            }
        },
        Some(_) => None,
        None => match messages {
            Some(Json::Array(items)) => match messages_from_array(items) {
                Some(ms) => Some(MessageGroup::Multiple { messages: ms }),
                None => None,
            },
            _ => None,
        },
    }
}

fn qos_from_ref(v: &Option<Json>) -> (r: bool)
    ensures
        r == qos_of(*v) is Some,
{
    match v {
        None => true,
        Some(Json::Number(JsonNumber::PosInt(n))) => *n <= 2,
        _ => false,
    }
}

fn broker_from_object(v: Json) -> (r: Option<Broker>)
    ensures
        r is Some <==> broker_accepts(v),
        r is Some ==> broker_is(v, r->0),
{
    let members = match v {
        Json::Object(members) => members,
        _ => return None,
    };
    let m = sort_members(members);
    let address = if m.url.is_some() && m.broker.is_none() && m.host.is_none() && m.hostname.is_none() {
        m.url
    } else if m.url.is_none() && m.broker.is_some() && m.host.is_none() && m.hostname.is_none() {
        m.broker
    } else if m.url.is_none() && m.broker.is_none() && m.host.is_some() && m.hostname.is_none() {
        m.host
    } else if m.url.is_none() && m.broker.is_none() && m.host.is_none() && m.hostname.is_some() {
        m.hostname
    } else {
        None
    };
    let address = match address {
        Some(Json::Str(s)) => s,
        _ => return None,
    };
    let url = match parse_url_with_default(address.as_str()) {
        Ok(u) => u,
        Err(_) => return None,
    };
    let credentials = match (m.username, m.password) {
        (Some(Json::Str(username)), Some(Json::Str(password))) => Some(Credentials { username, password }),
        _ => None,
    };
    match group_from(m.topic, m.payload, m.payload_type, m.qos, m.message, m.messages) {
        Some(messages) => Some(Broker { url, credentials, messages }),
        None => None,
    }
}

fn brokers_from_array(items: Vec<Json>) -> (r: Option<Vec<Broker>>)
    ensures
        r is Some <==> forall|i: int| 0 <= i < items@.len() ==> broker_accepts(#[trigger] items@[i]),
        r is Some ==> r->0@.len() == items@.len() && forall|i: int|
            0 <= i < items@.len() ==> broker_is(#[trigger] items@[i], r->0@[i]),
{
    let ghost orig = items@;
    let mut rest = reversed(items);
    let mut out: Vec<Broker> = Vec::new();
    while rest.len() > 0
        invariant
            orig == items@,
            out@.len() + rest@.len() == orig.len(),
            forall|j: int| 0 <= j < rest@.len() ==> rest@[j] == orig[orig.len() - 1 - j],
            forall|i: int| 0 <= i < out@.len() ==> broker_accepts(#[trigger] orig[i]),
            forall|i: int| 0 <= i < out@.len() ==> broker_is(#[trigger] orig[i], out@[i]),
        decreases rest@.len(),
    {
        let ghost k = out@.len() as int;
        if let Some(item) = rest.pop() {
            assert(item == orig[k]);
            match broker_from_object(item) {
                Some(b) => out.push(b),
                None => {
                    assert(!broker_accepts(orig[k]));
                    return None;
                },
            }
        }
    }
    Some(out)
}

impl PublishRequest {
    /// Reads a publish request from a JSON document: a broker object, or an array of
    /// broker objects. Any departure from that schema refuses the whole document.
    pub fn from_document(doc: Json) -> (r: Option<PublishRequest>)
        ensures
            r is Some <==> request_accepts(doc),
            r is Some ==> request_is(doc, r->0),
    {
        match doc {
            Json::Object(members) => match broker_from_object(Json::Object(members)) {
                Some(b) => Some(PublishRequest::Single(b)),
                None => None,
            },
            Json::Array(items) => match brokers_from_array(items) {
                Some(bs) => Some(PublishRequest::Multiple(bs)),
                None => None,
            },
            _ => None,
        }
    }
}

/// What standard base64 decoding makes of a text: the bytes, or nothing where the text
/// is not valid base64. It depends on the text alone.
pub uninterp spec fn base64_decoded(text: Seq<char>) -> Option<Seq<u8>>;

/// Relies on the `decode` method of base64's `STANDARD` engine (standard alphabet,
/// padding required): the bytes a text encodes, or an error where it encodes none.
#[verifier::external_body]
fn decode_base64(text: &str) -> (r: Option<Vec<u8>>)
    ensures
        match r {
            Some(b) => base64_decoded(text@) == Some(b@),
            None => base64_decoded(text@) is None,
        },
{
    base64::Engine::decode(&base64::engine::general_purpose::STANDARD, text).ok()
}

/// The bytes sent for a payload: none for an absent payload, the UTF-8 text of a
/// string, the compact text of a JSON value, the decoded bytes of base64, raw bytes as
/// they are. Invalid base64 and an unsupported encoding give no bytes.
pub open spec fn payload_bytes(p: Option<Payload>) -> Option<Seq<u8>> {
    match p {
        None => Some(Seq::empty()),
        Some(Payload::Specified(TypedPayload::String(s))) => Some(encode_utf8(s@)),
        Some(Payload::Specified(TypedPayload::Json(v))) => Some(encode_utf8(json_text(v))),
        Some(Payload::Specified(TypedPayload::Base64(d))) => base64_decoded(d@),
        Some(Payload::Specified(TypedPayload::Raw(b))) => Some(b@),
        Some(Payload::Unspecified { payload }) => Some(encode_utf8(payload@)),
        Some(Payload::Unsupported) => None,
    }
}

fn copy_bytes(b: &Vec<u8>) -> (r: Vec<u8>)
    ensures
        r@ == b@,
{
    let mut out: Vec<u8> = Vec::new();
    let mut i: usize = 0;
    while i < b.len()
        invariant
            i <= b@.len(),
            out@ == b@.take(i as int),
        decreases b@.len() - i,
    {
        out.push(b[i]);
        i = i + 1;
        assert(out@ =~= b@.take(i as int));
    }
    assert(b@.take(b@.len() as int) =~= b@);
    out
}

impl Message {
    /// Reads one message object: `topic`, and optionally `payload`, `payloadType` and
    /// `qos`.
    pub fn from_document(v: Json) -> (r: Option<Message>)
        ensures
            r is Some <==> object_message_accepts(v),
            r is Some ==> object_message_is(v, r->0),
    {
        message_from_object(v)
    }

    /// The bytes to publish for this message, or `None` where its payload cannot be
    /// decoded.
    pub fn payload(&self) -> (r: Option<Vec<u8>>)
        ensures
            match r {
                Some(b) => payload_bytes(self.payload) == Some(b@),
                None => payload_bytes(self.payload) is None,
            },
    {
        match &self.payload {
            None => Some(Vec::new()),
            Some(Payload::Specified(TypedPayload::String(s))) => Some(s.as_str().as_bytes_vec()),
            Some(Payload::Specified(TypedPayload::Json(v))) => {
                let mut text = String::new();
                write_json(v, &mut text);
                Some(text.as_str().as_bytes_vec())
            },
            Some(Payload::Specified(TypedPayload::Base64(d))) => decode_base64(d.as_str()),
            Some(Payload::Specified(TypedPayload::Raw(b))) => Some(copy_bytes(b)),
            Some(Payload::Unspecified { payload }) => Some(payload.as_str().as_bytes_vec()),
            Some(Payload::Unsupported) => None,
        }
    }
}

impl Default for Message {
    /// A message to no topic, without payload, at the default qos.
    fn default() -> (r: Message)
        ensures
            r.topic@ == Seq::<char>::empty(),
            r.payload is None,
            r.qos == DEFAULT_QOS,
    {
        Message { topic: String::new(), payload: None, qos: DEFAULT_QOS }
    }
}

/// The messages of a group, in order.
pub open spec fn messages_of(g: MessageGroup) -> Seq<Message> {
    match g {
        MessageGroup::Flat(m) => seq![m],
        MessageGroup::Single { message } => seq![message],
        MessageGroup::Multiple { messages } => messages@,
    }
}

impl MessageGroup {
    /// The messages of this group as one sequence, whatever its shape.
    pub fn into_messages(self) -> (r: Vec<Message>)
        ensures
            r@ == messages_of(self),
    {
        match self {
            MessageGroup::Flat(m) => vec![m],
            MessageGroup::Single { message } => vec![message],
            MessageGroup::Multiple { messages } => messages,
        }
    }
}

/// The brokers of a request, in order.
pub open spec fn brokers_of(r: PublishRequest) -> Seq<Broker> {
    match r {
        PublishRequest::Single(b) => seq![b],
        PublishRequest::Multiple(bs) => bs@,
    }
}

/// Whether a declared body length lets the body be read: it must be given, and at most
/// the size limit.
pub open spec fn length_accepted(declared: Option<u64>) -> bool {
    match declared {
        Some(n) => n <= MAX_PAYLOAD_SIZE,
        None => false,
    }
}

/// Whether a request with this declared length may have its body read.
pub fn body_length_accepted(declared: Option<u64>) -> (r: bool)
    ensures
        r == length_accepted(declared),
{
    match declared {
        Some(n) => n <= MAX_PAYLOAD_SIZE,
        None => false,
    }
}

/// The media type that selects the structured mode.
pub open spec fn is_json_media_type(content_type: Option<Seq<char>>) -> bool {
    content_type == Some("application/json"@)
}

/// Whether a `Content-Type` header value selects the structured mode.
pub fn is_json_content(content_type: Option<&str>) -> (r: bool)
    ensures
        r == is_json_media_type(opt_str_view(content_type)),
{
    match content_type {
        Some(t) => String::from_str(t) == String::from_str("application/json"),
        None => false,
    }
}

/// The single message a plain request publishes: its whole body, raw, at the default
/// qos, to the topic its path names.
pub open spec fn header_message_is(topic: Seq<char>, body: Seq<u8>, m: Message) -> bool {
    &&& m.topic@ == topic
    &&& m.qos == DEFAULT_QOS
    &&& m.payload matches Some(Payload::Specified(TypedPayload::Raw(b))) && b@ == body
}

impl PublishRequest {
    /// The brokers of this request as one sequence, in order.
    pub fn into_brokers(self) -> (r: Vec<Broker>)
        ensures
            r@ == brokers_of(self),
    {
        match self {
            PublishRequest::Single(b) => vec![b],
            PublishRequest::Multiple(bs) => bs,
        }
    }

    /// The structured mode: `document` is what the body reads as in JSON, or `None`
    /// where it is not JSON. A body that may not be read, or that is not a publish
    /// request, fails as one JSON format error.
    pub fn from_json_body(declared_length: Option<u64>, document: Option<Json>) -> (r: Result<PublishRequest, Error>)
        ensures
            match r {
                Ok(req) => length_accepted(declared_length) && document is Some && request_accepts(document->0)
                    && request_is(document->0, req),
                Err(e) => e == Error::JsonFormat && !(length_accepted(declared_length) && document is Some
                    && request_accepts(document->0)),
            },
    {
        if !body_length_accepted(declared_length) {
            return Err(Error::JsonFormat);
        }
        match document {
            Some(doc) => match PublishRequest::from_document(doc) {
                Some(req) => Ok(req),
                None => Err(Error::JsonFormat),
            },
            None => Err(Error::JsonFormat),
        }
    }

    /// The header mode: one broker from `X-Broker`, `X-Username` and `X-Password`, one
    /// message to the topic the path names, carrying the whole body raw at the default
    /// qos. Failures come in that order: the headers, the path, then the body size.
    pub fn from_headers(
        broker: Option<&str>,
        username: Option<&str>,
        password: Option<&str>,
        path: &str,
        declared_length: Option<u64>,
        body: Vec<u8>,
    ) -> (r: Result<PublishRequest, Error>)
        ensures
            broker is None ==> r == Err::<PublishRequest, Error>(Error::Header),
            broker is Some && normalized_url(broker->0@) is Err ==> r == Err::<PublishRequest, Error>(Error::BrokerUrl),
            broker is Some && normalized_url(broker->0@) is Ok && strip_leading_slashes(path@).len() == 0
                ==> r == Err::<PublishRequest, Error>(Error::Topic),
            broker is Some && normalized_url(broker->0@) is Ok && strip_leading_slashes(path@).len() > 0
                && !length_accepted(declared_length) ==> r == Err::<PublishRequest, Error>(Error::BodySize),
            broker is Some && normalized_url(broker->0@) is Ok && strip_leading_slashes(path@).len() > 0
                && length_accepted(declared_length) ==> {
                &&& r matches Ok(PublishRequest::Single(b))
                &&& b.url@ == normalized_url(broker->0@)->Ok_0
                &&& credentials_view(b.credentials) == credentials_spec(opt_str_view(username), opt_str_view(password))
                &&& b.messages matches MessageGroup::Flat(m) && header_message_is(strip_leading_slashes(path@), body@, m)
            },
    {
        let info = match ConnectInfo::from_headers(broker, username, password) {
            Ok(info) => info,
            Err(e) => return Err(e),
        };
        let topic = match Topic::from_path(path) {
            Ok(t) => t,
            Err(e) => return Err(e),
        };
        if !body_length_accepted(declared_length) {
            return Err(Error::BodySize);
        }
        let Topic(topic) = topic;
        let message = Message {
            topic,
            payload: Some(Payload::Specified(TypedPayload::Raw(body))),
            qos: DEFAULT_QOS,
        };
        Ok(PublishRequest::Single(Broker {
            url: info.broker,
            credentials: info.credentials,
            messages: MessageGroup::Flat(message),
        }))
    }
}

/// The keys that name the broker address; `broker`, `host` and `hostname` are aliases.
pub open spec fn is_address_alias(k: Seq<char>) -> bool {
    k == "broker"@ || k == "host"@ || k == "hostname"@
}

pub open spec fn is_address_key(k: Seq<char>) -> bool {
    k == "url"@ || is_address_alias(k)
}

pub proof fn lemma_lookup_concat(a: Seq<(String, Json)>, b: Seq<(String, Json)>, key: Seq<char>)
    ensures
        lookup(a + b, key) == if lookup(b, key) is Some {
            lookup(b, key)
        } else {
            lookup(a, key)
        },
    decreases b.len(),
{
    if b.len() == 0 {
        assert(a + b =~= a);
    } else {
        assert((a + b).drop_last() =~= a + b.drop_last());
        assert((a + b).last() == b.last());
        lemma_lookup_concat(a, b.drop_last(), key);
    }
}

pub proof fn lemma_lookup_absent(s: Seq<(String, Json)>, key: Seq<char>)
    requires
        forall|i: int| 0 <= i < s.len() ==> (#[trigger] s[i]).0@ != key,
    ensures
        lookup(s, key) is None,
    decreases s.len(),
{
    if s.len() > 0 {
        assert(s.last() == s[s.len() - 1]);
        lemma_lookup_absent(s.drop_last(), key);
    }
}

/// What a key looks up to in a member list with one member put between two others.
proof fn lemma_lookup_around(pre: Seq<(String, Json)>, e: (String, Json), post: Seq<(String, Json)>, key: Seq<char>)
    ensures
        lookup(pre + seq![e] + post, key) == if lookup(post, key) is Some {
            lookup(post, key)
        } else if e.0@ == key {
            Some(e.1)
        } else {
            lookup(pre, key)
        },
{
    let single = seq![e];
    lemma_lookup_concat(pre + single, post, key);
    lemma_lookup_concat(pre, single, key);
    assert(single.drop_last() =~= Seq::<(String, Json)>::empty());
    assert(single.last() == e);
    assert(lookup(Seq::<(String, Json)>::empty(), key) is None);
}

/// Naming the broker address `broker`, `host` or `hostname` makes no difference: two
/// broker objects that differ only in which of these keys holds the same address are
/// accepted alike and read as the same broker.
pub proof fn lemma_address_aliases(
    pre: Seq<(String, Json)>,
    post: Seq<(String, Json)>,
    k1: String,
    k2: String,
    address: Json,
    m1: Vec<(String, Json)>,
    m2: Vec<(String, Json)>,
    b: Broker,
)
    requires
        is_address_alias(k1@),
        is_address_alias(k2@),
        forall|i: int| 0 <= i < pre.len() ==> !is_address_key((#[trigger] pre[i]).0@),
        forall|i: int| 0 <= i < post.len() ==> !is_address_key((#[trigger] post[i]).0@),
        m1@ == pre + seq![(k1, address)] + post,
        m2@ == pre + seq![(k2, address)] + post,
    ensures
        broker_accepts(Json::Object(m1)) == broker_accepts(Json::Object(m2)),
        broker_is(Json::Object(m1), b) == broker_is(Json::Object(m2), b),
{
    lemma_key_lengths();
    assert forall|key: Seq<char>| !is_address_key(key) implies lookup(m1@, key) == lookup(m2@, key) by {
        lemma_lookup_around(pre, (k1, address), post, key);
        lemma_lookup_around(pre, (k2, address), post, key);
    }
    assert forall|key: Seq<char>| is_address_key(key) implies lookup(pre, key) is None && lookup(post, key) is None by {
        lemma_lookup_absent(pre, key);
        lemma_lookup_absent(post, key);
    }
    assert forall|key: Seq<char>| is_address_key(key) implies lookup(m1@, key) == (if key == k1@ {
        Some(address)
    } else {
        None::<Json>
    }) && lookup(m2@, key) == (if key == k2@ {
        Some(address)
    } else {
        None::<Json>
    }) by {
        lemma_lookup_around(pre, (k1, address), post, key);
        lemma_lookup_around(pre, (k2, address), post, key);
    }
    assert(is_address_key("url"@));
    assert(is_address_key("broker"@));
    assert(is_address_key("host"@));
    assert(is_address_key("hostname"@));
    assert(!is_address_key("topic"@));
    assert(!is_address_key("payload"@));
    assert(!is_address_key("payloadType"@));
    assert(!is_address_key("qos"@));
    assert(!is_address_key("message"@));
    assert(!is_address_key("messages"@));
    assert(!is_address_key("username"@));
    assert(!is_address_key("password"@));
    assert(url_member(m1@) == Some(address));
    assert(url_member(m2@) == Some(address));
}

/// A qos from 0 to 2 is kept; any other number, 3 and above or negative, is refused.
pub proof fn lemma_qos_range(n: u64, i: i64)
    requires
        i < 0,
    ensures
        qos_of(Some(Json::Number(JsonNumber::PosInt(n)))) == if n <= 2 {
            Some(n as i32)
        } else {
            None
        },
        qos_of(Some(Json::Number(JsonNumber::NegInt(i)))) is None,
{
}

/// A flat broker object whose qos is out of range refuses the whole document, alone or
/// within an array: nothing is clamped and nothing is partly accepted.
pub proof fn lemma_bad_qos_rejects(members: Vec<(String, Json)>, others: Vec<Json>, k: int)
    requires
        lookup(members@, "qos"@) is Some,
        qos_of(lookup(members@, "qos"@)) is None,
        lookup(members@, "message"@) is None,
        lookup(members@, "messages"@) is None,
        0 <= k < others@.len(),
        others@[k] == Json::Object(members),
    ensures
        !request_accepts(Json::Object(members)),
        !request_accepts(Json::Array(others)),
{
    assert(!broker_accepts(others@[k]));
    assert(!(forall|i: int| 0 <= i < others@.len() ==> broker_accepts(#[trigger] others@[i])));
    let doc = Json::Array(others);
    assert(doc->Array_0 == others);
    assert(request_accepts(doc) == (forall|i: int| 0 <= i < others@.len() ==> broker_accepts(#[trigger] others@[i])));
}

/// An untyped string payload and the same string typed as `string` send the same bytes:
/// the UTF-8 encoding of the string.
pub proof fn lemma_untyped_is_string(tag: String, text: String, untyped: Option<Payload>, typed: Option<Payload>)
    requires
        tag@ == "string"@,
        payload_is(None, Some(Json::Str(text)), untyped),
        payload_is(Some(Json::Str(tag)), Some(Json::Str(text)), typed),
    ensures
        payload_bytes(untyped) == Some(encode_utf8(text@)),
        payload_bytes(typed) == Some(encode_utf8(text@)),
{
    reveal_strlit("string");
}

/// The three shapes of a message group carry the same message: a message object's
/// members written flat in the broker object, the object under `message`, and a list of
/// that one object under `messages` are each accepted, and each gives exactly one
/// message, the one the object reads as.
pub proof fn lemma_group_shapes(o: Json, items: Vec<Json>, flat: MessageGroup, wrapped: MessageGroup, listed: MessageGroup)
    requires
        o is Object,
        object_message_accepts(o),
        items@ == seq![o],
        group_is(
            lookup(o->Object_0@, "topic"@),
            lookup(o->Object_0@, "payload"@),
            lookup(o->Object_0@, "payloadType"@),
            lookup(o->Object_0@, "qos"@),
            None,
            None,
            flat,
        ),
        group_is(None, None, None, None, Some(o), None, wrapped),
        group_is(None, None, None, None, None, Some(Json::Array(items)), listed),
    ensures
        group_accepts(lookup(o->Object_0@, "topic"@), lookup(o->Object_0@, "qos"@), None, None),
        group_accepts(None, None, Some(o), None),
        group_accepts(None, None, None, Some(Json::Array(items))),
        messages_of(flat).len() == 1 && object_message_is(o, messages_of(flat)[0]),
        messages_of(wrapped).len() == 1 && object_message_is(o, messages_of(wrapped)[0]),
        messages_of(listed).len() == 1 && object_message_is(o, messages_of(listed)[0]),
{
    assert(items@[0] == o);
}

/// A user name without a password, or a password without a user name, gives a broker
/// with no credentials, and has no part in whether the object is accepted.
pub proof fn lemma_half_credentials(members: Vec<(String, Json)>, b: Broker)
    requires
        json_str_view(lookup(members@, "username"@)) is None || json_str_view(lookup(members@, "password"@)) is None,
    ensures
        broker_is(Json::Object(members), b) ==> b.credentials is None,
        broker_accepts(Json::Object(members)) == (broker_url_of(members@) is Some && group_accepts(
            lookup(members@, "topic"@),
            lookup(members@, "qos"@),
            lookup(members@, "message"@),
            lookup(members@, "messages"@),
        )),
{
}

} // verus!
