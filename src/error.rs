//! The closed set of failures a request can end with, and their external status.
use vstd::prelude::*;

verus! {

/// Every way a gateway request can fail. Each kind maps to one HTTP status class and
/// one fixed message.
#[derive(Clone, Copy, PartialEq, Eq, Debug, Structural)]
pub enum Error {
    ClientInformation,
    BrokerConnection,
    Subscription,
    PublishTimeout,
    MessageReception,
    Payload,
    Publish,
    Disconnect,
    Header,
    BrokerUrl,
    JsonFormat,
    BodySize,
    Topic,
}

pub const BAD_REQUEST: u16 = 400;

pub const PAYLOAD_TOO_LARGE: u16 = 413;

pub const BAD_GATEWAY: u16 = 502;

pub const GATEWAY_TIMEOUT: u16 = 504;

/// The status class of each kind: problems with the request itself are client errors,
/// problems met at the broker are gateway errors.
pub open spec fn status_of(e: Error) -> u16 {
    match e {
        Error::ClientInformation => BAD_REQUEST,
        Error::BrokerConnection => BAD_GATEWAY,
        Error::Subscription => BAD_GATEWAY,
        Error::PublishTimeout => GATEWAY_TIMEOUT,
        Error::MessageReception => BAD_GATEWAY,
        Error::Payload => BAD_REQUEST,
        Error::Publish => BAD_GATEWAY,
        Error::Disconnect => BAD_GATEWAY,
        Error::Header => BAD_REQUEST,
        Error::BrokerUrl => BAD_REQUEST,
        Error::JsonFormat => BAD_REQUEST,
        Error::BodySize => PAYLOAD_TOO_LARGE,
        Error::Topic => BAD_REQUEST,
    }
}

/// The fixed text sent as the response body for each kind.
pub open spec fn message_of(e: Error) -> Seq<char> {
    match e {
        Error::ClientInformation => "invalid mqtt client information"@,
        Error::BrokerConnection => "broker connection failed"@,
        Error::Subscription => "topic subscription failed"@,
        Error::PublishTimeout => "no message received before timeout"@,
        Error::MessageReception => "message reception failed"@,
        Error::Payload => "invalid message payload"@,
        Error::Publish => "publish failed"@,
        Error::Disconnect => "disconnection failure"@,
        Error::Header => "missing or invalid header"@,
        Error::BrokerUrl => "invalid broker url"@,
        Error::JsonFormat => "invalid json format or payload too large"@,
        Error::BodySize => "body too large"@,
        Error::Topic => "invalid topic path"@,
    }
}

impl Error {
    /// The HTTP status code of this failure.
    pub fn status_code(&self) -> (r: u16)
        ensures
            r == status_of(*self),
    {
        match self {
            Error::ClientInformation => BAD_REQUEST,
            Error::BrokerConnection => BAD_GATEWAY,
            Error::Subscription => BAD_GATEWAY,
            Error::PublishTimeout => GATEWAY_TIMEOUT,
            Error::MessageReception => BAD_GATEWAY,
            Error::Payload => BAD_REQUEST,
            Error::Publish => BAD_GATEWAY,
            Error::Disconnect => BAD_GATEWAY,
            Error::Header => BAD_REQUEST,
            Error::BrokerUrl => BAD_REQUEST,
            Error::JsonFormat => BAD_REQUEST,
            Error::BodySize => PAYLOAD_TOO_LARGE,
            Error::Topic => BAD_REQUEST,
        }
    }

    /// The human-readable text of this failure, used verbatim as the response body.
    pub fn message(&self) -> (r: &'static str)
        ensures
            r@ == message_of(*self),
    {
        match self {
            Error::ClientInformation => "invalid mqtt client information",
            Error::BrokerConnection => "broker connection failed",
            Error::Subscription => "topic subscription failed",
            Error::PublishTimeout => "no message received before timeout",
            Error::MessageReception => "message reception failed",
            Error::Payload => "invalid message payload",
            Error::Publish => "publish failed",
            Error::Disconnect => "disconnection failure",
            Error::Header => "missing or invalid header",
            Error::BrokerUrl => "invalid broker url",
            Error::JsonFormat => "invalid json format or payload too large",
            Error::BodySize => "body too large",
            Error::Topic => "invalid topic path",
        }
    }
}

} // verus!
