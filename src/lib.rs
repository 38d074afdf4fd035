//! Authentication and dispatch of EventSub push notifications that are
//! relayed to an incoming chat webhook.
//!
//! Every callback request is first authenticated (four headers and an
//! HMAC-SHA256 signature over id, timestamp and body) and then dispatched on
//! its declared message type: a verification handshake is answered with its
//! challenge, any other type is read as a stream-online event and turned into
//! one outbound JSON message.

pub mod auth;
pub mod dispatch;
pub mod reply;
pub mod signature;

pub use signature::{constant_time_eq, get_hmac, get_hmac_message, signature_value};
pub use auth::{authenticate, check_headers, HeaderName, Notification, Rejection};
pub use dispatch::{
    announcement, challenge_outcome, content_json, dispatch, event_outcome, forward_payload,
    handle_callback, Outcome, ParseError,
};
pub use reply::{forwarded_reply, health, Reply};
