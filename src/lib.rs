//! The core of an HTTP gateway to MQTT brokers: the publish request model and its
//! parser, the payload codec, and the publish and subscribe session protocols.
//!
//! Every request opens short-lived broker sessions. The sessions here decide what to do
//! next; the caller performs each broker operation and reports back.
pub mod broker_url;
pub mod connect_info;
pub mod error;
pub mod json;
mod members;
pub mod publish;
pub mod publish_session;
pub mod subscribe_session;

pub use broker_url::{parse_url_with_default, BrokerUrl, UrlError};
pub use connect_info::{ConnectInfo, Credentials, Topic};
pub use error::Error;
pub use json::{Json, JsonNumber};
pub use publish::{Broker, Message, MessageGroup, Payload, PublishRequest, TypedPayload};
pub use publish_session::{PublishAction, PublishSession};
pub use subscribe_session::{
    format_message, ResponseBody, SubscribeAction, SubscribeEvent, SubscribeResponse,
    SubscribeSession,
};
