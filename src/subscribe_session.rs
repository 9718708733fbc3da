//! The subscribe session: create a client, connect, subscribe to one topic, wait for
//! the first message with a time limit, disconnect, then shape the response.
//!
//! The session decides and the caller acts: `step` hands out the next action, the caller
//! performs it and reports what happened.
use vstd::prelude::*;
use vstd::utf8::{decode_utf8, valid_utf8};

use crate::broker_url::BrokerUrl;
use crate::connect_info::{opt_str_view, ConnectInfo, Credentials, Topic};
use crate::error::Error;

verus! {

/// The delivery guarantee a subscription asks for.
pub const SUBSCRIBE_QOS: i32 = 2;

/// How long to wait for the first message, in seconds.
pub const RECEIVE_TIMEOUT_SECS: u64 = 300;

/// What happened to the action handed out last.
#[derive(PartialEq, Eq, Debug)]
pub enum SubscribeEvent {
    /// The operation succeeded.
    Succeeded,
    /// The operation failed.
    Failed,
    /// While waiting: a message arrived.
    Received { topic: String, payload: Vec<u8> },
    /// While waiting: the time limit passed first.
    TimedOut,
    /// While waiting: the message stream ended without a message.
    Closed,
}

/// The body of a subscribe response.
#[derive(PartialEq, Eq, Debug)]
pub enum ResponseBody {
    /// The payload read as UTF-8 text, sent as `text/plain`.
    Text(String),
    /// The payload bytes as they came.
    Binary(Vec<u8>),
}

/// A received message shaped for the HTTP response: its topic goes in a header.
#[derive(PartialEq, Eq, Debug)]
pub struct SubscribeResponse {
    pub topic: String,
    pub body: ResponseBody,
}

/// What the caller must do next.
#[derive(PartialEq, Eq, Debug)]
pub enum SubscribeAction {
    CreateClient { url: BrokerUrl },
    Connect { credentials: Option<Credentials> },
    Subscribe { topic: String, qos: i32 },
    /// Wait for the first message on the subscription, at most this long.
    Await { timeout_secs: u64 },
    Disconnect,
    /// The request is over, with this result.
    Finish(Result<SubscribeResponse, Error>),
}

/// Where a session stands: the action handed out last, or the end.
#[derive(Clone, Copy, PartialEq, Eq, Debug, Structural)]
pub enum SubscribeStage {
    Start,
    CreatingClient,
    Connecting,
    Subscribing,
    Awaiting,
    Disconnecting,
    Done,
}

/// What `String::from_utf8_lossy` makes of some bytes. It depends on the bytes alone.
pub uninterp spec fn lossy_utf8(bytes: Seq<u8>) -> Seq<char>;

/// Relies on `String::from_utf8_lossy`: the bytes as text, with each invalid sequence
/// replaced; valid UTF-8 is decoded as it is.
#[verifier::external_body]
fn text_of_bytes(bytes: &Vec<u8>) -> (r: String)
    ensures
        r@ == lossy_utf8(bytes@),
        valid_utf8(bytes@) ==> r@ == decode_utf8(bytes@),
{
    String::from_utf8_lossy(bytes).into_owned()
}

/// Whether an `Accept` header value asks for the payload as text.
pub open spec fn wants_text(accept: Option<Seq<char>>) -> bool {
    accept == Some("text/plain"@)
}

/// The response for a received message: its topic, and its payload as text where text
/// was asked for, as raw bytes otherwise.
pub open spec fn response_is(text: bool, topic: String, payload: Seq<u8>, r: SubscribeResponse) -> bool {
    &&& r.topic == topic
    &&& if text {
        r.body is Text && r.body->Text_0@ == lossy_utf8(payload)
    } else {
        r.body is Binary && r.body->Binary_0@ == payload
    }
}

/// Whether an `Accept` header value asks for the payload as text.
pub fn accepts_text(accept: Option<&str>) -> (r: bool)
    ensures
        r == wants_text(opt_str_view(accept)),
{
    match accept {
        Some(a) => String::from_str(a) == String::from_str("text/plain"),
        None => false,
    }
}

fn shape_response(text: bool, topic: String, payload: Vec<u8>) -> (r: SubscribeResponse)
    ensures
        response_is(text, topic, payload@, r),
{
    if text {
        SubscribeResponse { topic, body: ResponseBody::Text(text_of_bytes(&payload)) }
    } else {
        SubscribeResponse { topic, body: ResponseBody::Binary(payload) }
    }
}

/// Shapes a received message for the response, following the `Accept` header.
pub fn format_message(accept: Option<&str>, topic: String, payload: Vec<u8>) -> (r: SubscribeResponse)
    ensures
        response_is(wants_text(opt_str_view(accept)), topic, payload@, r),
{
    shape_response(accepts_text(accept), topic, payload)
}

/// A subscribe request in progress.
pub struct SubscribeSession {
    stage: SubscribeStage,
    url: Option<BrokerUrl>,
    credentials: Option<Credentials>,
    topic: Option<String>,
    text: bool,
    received: Option<SubscribeResponse>,
    wait_error: Option<Error>,
}

impl SubscribeSession {
    pub closed spec fn stage(&self) -> SubscribeStage {
        self.stage
    }

    /// Whether the response is to carry text.
    pub closed spec fn text(&self) -> bool {
        self.text
    }

    /// Why the wait ended without a message, once it has.
    pub closed spec fn wait_error(&self) -> Option<Error> {
        self.wait_error
    }

    /// The response made of the received message, once one has come.
    pub closed spec fn received(&self) -> Option<SubscribeResponse> {
        self.received
    }

    pub closed spec fn url(&self) -> Option<BrokerUrl> {
        self.url
    }

    pub closed spec fn credentials(&self) -> Option<Credentials> {
        self.credentials
    }

    pub closed spec fn topic(&self) -> Option<String> {
        self.topic
    }

    /// The session holds what its next steps need.
    pub closed spec fn wf(&self) -> bool {
        &&& self.stage == SubscribeStage::Start ==> self.url is Some
        &&& (self.stage == SubscribeStage::Start || self.stage == SubscribeStage::CreatingClient
            || self.stage == SubscribeStage::Connecting) ==> self.topic is Some
        &&& self.stage == SubscribeStage::Disconnecting ==> (self.wait_error is Some <==> self.received is None)
    }

    /// A session that subscribes to `topic` at the broker of `info`; `accept` is the
    /// request's `Accept` header.
    pub fn new(info: ConnectInfo, topic: Topic, accept: Option<&str>) -> (s: SubscribeSession)
        ensures
            s.wf(),
            s.stage() == SubscribeStage::Start,
            s.url() == Some(info.broker),
            s.credentials() == info.credentials,
            s.topic() == Some(topic.0),
            s.text() == wants_text(opt_str_view(accept)),
            s.received() is None,
            s.wait_error() is None,
    {
        let text = accepts_text(accept);
        SubscribeSession {
            stage: SubscribeStage::Start,
            url: Some(info.broker),
            credentials: info.credentials,
            topic: Some(topic.0),
            text,
            received: None,
            wait_error: None,
        }
    }

    fn finish(&mut self, r: Result<SubscribeResponse, Error>) -> (a: SubscribeAction)
        ensures
            final(self).stage() == SubscribeStage::Done,
            a == SubscribeAction::Finish(r),
            final(self).text() == old(self).text(),
            final(self).wait_error() == old(self).wait_error(),
    {
        self.stage = SubscribeStage::Done;
        SubscribeAction::Finish(r)
    }

    /// Whether the session has handed out its final action.
    pub fn is_finished(&self) -> (r: bool)
        ensures
            r == (self.stage() == SubscribeStage::Done),
    {
        match self.stage {
            SubscribeStage::Done => true,
            _ => false,
        }
    }

    /// Hands out the next action, given what happened to the one handed out last (on
    /// the first call the event is not read). A failed operation ends the request with
    /// its failure; a wait that ends without a message still disconnects, then reports
    /// why it ended, whatever the disconnect did.
    pub fn step(&mut self, event: SubscribeEvent) -> (a: SubscribeAction)
        requires
            old(self).wf(),
            old(self).stage() != SubscribeStage::Done,
        ensures
            final(self).wf(),
            final(self).text() == old(self).text(),
            old(self).stage() == SubscribeStage::Start ==> {
                &&& a == SubscribeAction::CreateClient { url: old(self).url()->0 }
                &&& final(self).stage() == SubscribeStage::CreatingClient
                &&& final(self).credentials() == old(self).credentials()
                &&& final(self).topic() == old(self).topic()
            },
            old(self).stage() == SubscribeStage::CreatingClient ==> if event == SubscribeEvent::Succeeded {
                &&& a == SubscribeAction::Connect { credentials: old(self).credentials() }
                &&& final(self).stage() == SubscribeStage::Connecting
                &&& final(self).topic() == old(self).topic()
            } else {
                &&& a == SubscribeAction::Finish(Err(Error::ClientInformation))
                &&& final(self).stage() == SubscribeStage::Done
            },
            old(self).stage() == SubscribeStage::Connecting ==> if event == SubscribeEvent::Succeeded {
                &&& a == SubscribeAction::Subscribe { topic: old(self).topic()->0, qos: SUBSCRIBE_QOS }
                &&& final(self).stage() == SubscribeStage::Subscribing
            } else {
                &&& a == SubscribeAction::Finish(Err(Error::BrokerConnection))
                &&& final(self).stage() == SubscribeStage::Done
            },
            old(self).stage() == SubscribeStage::Subscribing ==> if event == SubscribeEvent::Succeeded {
                &&& a == SubscribeAction::Await { timeout_secs: RECEIVE_TIMEOUT_SECS }
                &&& final(self).stage() == SubscribeStage::Awaiting
            } else {
                &&& a == SubscribeAction::Finish(Err(Error::Subscription))
                &&& final(self).stage() == SubscribeStage::Done
            },
            old(self).stage() == SubscribeStage::Awaiting ==> {
                &&& a == SubscribeAction::Disconnect
                &&& final(self).stage() == SubscribeStage::Disconnecting
                &&& match event {
                    SubscribeEvent::Received { topic, payload } => final(self).wait_error() is None
                        && final(self).received() is Some
                        && response_is(old(self).text(), topic, payload@, final(self).received()->0),
                    SubscribeEvent::TimedOut => final(self).wait_error() == Some(Error::PublishTimeout),
                    _ => final(self).wait_error() == Some(Error::MessageReception),
                }
            },
            old(self).stage() == SubscribeStage::Disconnecting ==> {
                &&& final(self).stage() == SubscribeStage::Done
                &&& if old(self).wait_error() is Some {
                    a == SubscribeAction::Finish(Err(old(self).wait_error()->0))
                } else if event != SubscribeEvent::Succeeded {
                    a == SubscribeAction::Finish(Err(Error::Disconnect))
                } else {
                    a matches SubscribeAction::Finish(Ok(r)) && old(self).received() == Some(r)
                }
            },
    {
        let succeeded = match &event {
            SubscribeEvent::Succeeded => true,
            _ => false,
        };
        match self.stage {
            SubscribeStage::Start => {
                let url = self.url.take();
                self.stage = SubscribeStage::CreatingClient;
                match url {
                    Some(url) => SubscribeAction::CreateClient { url },
                    None => self.finish(Err(Error::ClientInformation)),
                }
            },
            SubscribeStage::CreatingClient => {
                if !succeeded {
                    return self.finish(Err(Error::ClientInformation));
                }
                let credentials = self.credentials.take();
                self.stage = SubscribeStage::Connecting;
                SubscribeAction::Connect { credentials }
            },
            SubscribeStage::Connecting => {
                if !succeeded {
                    return self.finish(Err(Error::BrokerConnection));
                }
                let topic = self.topic.take();
                self.stage = SubscribeStage::Subscribing;
                match topic {
                    Some(topic) => SubscribeAction::Subscribe { topic, qos: SUBSCRIBE_QOS },
                    None => self.finish(Err(Error::Subscription)),
                }
            },
            SubscribeStage::Subscribing => {
                if !succeeded {
                    return self.finish(Err(Error::Subscription));
                }
                self.stage = SubscribeStage::Awaiting;
                SubscribeAction::Await { timeout_secs: RECEIVE_TIMEOUT_SECS }
            },
            SubscribeStage::Awaiting => {
                match event {
                    SubscribeEvent::Received { topic, payload } => {
                        self.received = Some(shape_response(self.text, topic, payload));
                        self.wait_error = None;
                    },
                    SubscribeEvent::TimedOut => {
                        self.received = None;
                        self.wait_error = Some(Error::PublishTimeout);
                    },
                    _ => {
                        self.received = None;
                        self.wait_error = Some(Error::MessageReception);
                    },
                }
                self.stage = SubscribeStage::Disconnecting;
                SubscribeAction::Disconnect
            },
            SubscribeStage::Disconnecting => {
                if let Some(e) = self.wait_error {
                    return self.finish(Err(e));
                }
                if !succeeded {
                    return self.finish(Err(Error::Disconnect));
                }
                match self.received.take() {
                    Some(r) => self.finish(Ok(r)),
                    None => self.finish(Err(Error::MessageReception)),
                }
            },
            SubscribeStage::Done => self.finish(Err(Error::MessageReception)),
        }
    }
}

} // verus!
