//! The members of a JSON object that the request parser reads, taken out by key.
use vstd::prelude::*;

use crate::json::{lookup, Json};

verus! {

/// The values of the keys that a broker or message object may hold, each as `lookup`
/// gives it.
pub struct Members {
    pub url: Option<Json>,
    pub broker: Option<Json>,
    pub host: Option<Json>,
    pub hostname: Option<Json>,
    pub username: Option<Json>,
    pub password: Option<Json>,
    pub topic: Option<Json>,
    pub payload: Option<Json>,
    pub payload_type: Option<Json>,
    pub qos: Option<Json>,
    pub message: Option<Json>,
    pub messages: Option<Json>,
}

/// A slot already filled holds the object's value for its key; an empty one leaves the
/// key to the members not yet visited.
pub open spec fn slot_agrees(all: Seq<(String, Json)>, rest: Seq<(String, Json)>, key: Seq<char>, slot: Option<Json>) -> bool {
    lookup(all, key) == if slot is Some { slot } else { lookup(rest, key) }
}

pub open spec fn members_agree(all: Seq<(String, Json)>, rest: Seq<(String, Json)>, m: Members) -> bool {
    &&& slot_agrees(all, rest, "url"@, m.url)
    &&& slot_agrees(all, rest, "broker"@, m.broker)
    &&& slot_agrees(all, rest, "host"@, m.host)
    &&& slot_agrees(all, rest, "hostname"@, m.hostname)
    &&& slot_agrees(all, rest, "username"@, m.username)
    &&& slot_agrees(all, rest, "password"@, m.password)
    &&& slot_agrees(all, rest, "topic"@, m.topic)
    &&& slot_agrees(all, rest, "payload"@, m.payload)
    &&& slot_agrees(all, rest, "payloadType"@, m.payload_type)
    &&& slot_agrees(all, rest, "qos"@, m.qos)
    &&& slot_agrees(all, rest, "message"@, m.message)
    &&& slot_agrees(all, rest, "messages"@, m.messages)
}

pub proof fn lemma_key_lengths()
    ensures
        "url"@.len() == 3,
        "broker"@.len() == 6,
        "host"@.len() == 4,
        "hostname"@.len() == 8,
        "username"@.len() == 8,
        "password"@.len() == 8,
        "topic"@.len() == 5,
        "payload"@.len() == 7,
        "payloadType"@.len() == 11,
        "qos"@.len() == 3,
        "message"@.len() == 7,
        "messages"@.len() == 8,
        "url"@[0] != "qos"@[0],
        "hostname"@[0] != "username"@[0],
        "hostname"@[0] != "password"@[0],
        "hostname"@[0] != "messages"@[0],
        "username"@[0] != "password"@[0],
        "username"@[0] != "messages"@[0],
        "password"@[0] != "messages"@[0],
        "payload"@[0] != "message"@[0],
{
    reveal_strlit("url");
    reveal_strlit("broker");
    reveal_strlit("host");
    reveal_strlit("hostname");
    reveal_strlit("username");
    reveal_strlit("password");
    reveal_strlit("topic");
    reveal_strlit("payload");
    reveal_strlit("payloadType");
    reveal_strlit("qos");
    reveal_strlit("message");
    reveal_strlit("messages");
}

proof fn lemma_visit(all: Seq<(String, Json)>, before: Seq<(String, Json)>, key: Seq<char>, slot: Option<Json>)
    requires
        before.len() > 0,
        slot_agrees(all, before, key, slot),
    ensures
        before.last().0@ != key ==> slot_agrees(all, before.drop_last(), key, slot),
        before.last().0@ == key && slot is None ==> slot_agrees(all, before.drop_last(), key, Some(before.last().1)),
        before.last().0@ == key && slot is Some ==> slot_agrees(all, before.drop_last(), key, slot),
{
}

/// Every slot holds what the object holds for its key.
pub open spec fn members_of(all: Seq<(String, Json)>, m: Members) -> bool {
    members_agree(all, Seq::empty(), m)
}

/// Sorts an object's members into the slots of the keys the parser knows; other
/// members are dropped.
pub fn sort_members(members: Vec<(String, Json)>) -> (r: Members)
    ensures
        members_of(members@, r),
{
    let k_url = String::from_str("url");
    let k_broker = String::from_str("broker");
    let k_host = String::from_str("host");
    let k_hostname = String::from_str("hostname");
    let k_username = String::from_str("username");
    let k_password = String::from_str("password");
    let k_topic = String::from_str("topic");
    let k_payload = String::from_str("payload");
    let k_payload_type = String::from_str("payloadType");
    let k_qos = String::from_str("qos");
    let k_message = String::from_str("message");
    let k_messages = String::from_str("messages");
    let ghost all = members@;
    let mut rest = members;
    let mut m = Members {
        url: None,
        broker: None,
        host: None,
        hostname: None,
        username: None,
        password: None,
        topic: None,
        payload: None,
        payload_type: None,
        qos: None,
        message: None,
        messages: None,
    };
    while rest.len() > 0
        invariant
            members_agree(all, rest@, m),
            k_url@ == "url"@,
            k_broker@ == "broker"@,
            k_host@ == "host"@,
            k_hostname@ == "hostname"@,
            k_username@ == "username"@,
            k_password@ == "password"@,
            k_topic@ == "topic"@,
            k_payload@ == "payload"@,
            k_payload_type@ == "payloadType"@,
            k_qos@ == "qos"@,
            k_message@ == "message"@,
            k_messages@ == "messages"@,
        decreases rest@.len(),
    {
        let ghost before = rest@;
        if let Some((key, value)) = rest.pop() {
            assert(rest@ == before.drop_last());
            assert(before.last() == (key, value));
            proof {
                lemma_key_lengths();
            }
            proof {
                lemma_visit(all, before, "url"@, m.url);
                lemma_visit(all, before, "broker"@, m.broker);
                lemma_visit(all, before, "host"@, m.host);
                lemma_visit(all, before, "hostname"@, m.hostname);
                lemma_visit(all, before, "username"@, m.username);
                lemma_visit(all, before, "password"@, m.password);
                lemma_visit(all, before, "topic"@, m.topic);
                lemma_visit(all, before, "payload"@, m.payload);
                lemma_visit(all, before, "payloadType"@, m.payload_type);
                lemma_visit(all, before, "qos"@, m.qos);
                lemma_visit(all, before, "message"@, m.message);
                lemma_visit(all, before, "messages"@, m.messages);
            }
            if key == k_url {
                if m.url.is_none() {
                    m.url = Some(value);
                }
            } else if key == k_broker {
                if m.broker.is_none() {
                    m.broker = Some(value);
                }
            } else if key == k_host {
                if m.host.is_none() {
                    m.host = Some(value);
                }
            } else if key == k_hostname {
                if m.hostname.is_none() {
                    m.hostname = Some(value);
                }
            } else if key == k_username {
                if m.username.is_none() {
                    m.username = Some(value);
                }
            } else if key == k_password {
                if m.password.is_none() {
                    m.password = Some(value);
                }
            } else if key == k_topic {
                if m.topic.is_none() {
                    m.topic = Some(value);
                }
            } else if key == k_payload {
                if m.payload.is_none() {
                    m.payload = Some(value);
                }
            } else if key == k_payload_type {
                if m.payload_type.is_none() {
                    m.payload_type = Some(value);
                }
            } else if key == k_qos {
                if m.qos.is_none() {
                    m.qos = Some(value);
                }
            } else if key == k_message {
                if m.message.is_none() {
                    m.message = Some(value);
                }
            } else if key == k_messages {
                if m.messages.is_none() {
                    m.messages = Some(value);
                }
            }
        }
    }
    assert(rest@ =~= Seq::<(String, Json)>::empty());
    m
}

} // verus!
