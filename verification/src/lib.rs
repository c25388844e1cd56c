//! A realtime pub/sub client with presence, history, connection recovery and
//! push notifications, without its input and output: every operation gives the
//! frame or the HTTP request that is to be sent, and everything that comes in
//! gives the callbacks that are to be called.

pub mod call;
pub mod channel;
pub mod client;
pub mod codec;
pub mod inbound;
pub mod json;
pub mod laws;
pub mod presence;
pub mod push;
pub mod request;
pub mod text;
pub mod types;

pub use call::Call;
pub use channel::ChannelHandle;
pub use client::{
    Client, Delivery, PingEvent, PingStep, PubSubNamespace, ReadEvent, ReadStep, Shutdown,
    PING_INTERVAL_SECS, RECONNECT_DELAY_SECS,
};
pub use json::{Float, Json};
pub use presence::PresenceHandle;
pub use push::{ApiRequest, Method, PushClient, PushError};
pub use types::{
    HistoryMessage, HistoryOptions, HistoryResult, Message, MessageMeta, PresenceMember,
    PushPayload,
};
