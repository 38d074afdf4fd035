use vstd::prelude::*;
use crate::signature::{constant_time_eq, expected_signature, get_hmac_message, signature_value};

verus! {

/// One of the four headers that every callback request must carry.
#[derive(PartialEq, Eq, Structural, Clone, Copy, Debug)]
pub enum HeaderName {
    MessageId,
    MessageTimestamp,
    MessageSignature,
    MessageType,
}

/// Why an inbound notification was refused before dispatch.
#[derive(PartialEq, Eq, Structural, Clone, Copy, Debug)]
pub enum Rejection {
    MissingHeader(HeaderName),
    SignatureMismatch,
}

/// An inbound callback request: the four headers, each present or not, and
/// the raw body.
pub struct Notification {
    pub message_id: Option<String>,
    pub message_timestamp: Option<String>,
    pub message_signature: Option<String>,
    pub message_type: Option<String>,
    pub body: String,
}

pub struct NotificationView {
    pub message_id: Option<Seq<char>>,
    pub message_timestamp: Option<Seq<char>>,
    pub message_signature: Option<Seq<char>>,
    pub message_type: Option<Seq<char>>,
    pub body: Seq<char>,
}

pub open spec fn opt_view(h: Option<String>) -> Option<Seq<char>> {
    match h {
        Some(s) => Some(s@),
        None => None,
    }
}

impl View for Notification {
    type V = NotificationView;

    open spec fn view(&self) -> NotificationView {
        NotificationView {
            message_id: opt_view(self.message_id),
            message_timestamp: opt_view(self.message_timestamp),
            message_signature: opt_view(self.message_signature),
            message_type: opt_view(self.message_type),
            body: self.body@,
        }
    }
}

impl NotificationView {
    /// The value of one of the four headers.
    pub open spec fn header(self, h: HeaderName) -> Option<Seq<char>> {
        match h {
            HeaderName::MessageId => self.message_id,
            HeaderName::MessageTimestamp => self.message_timestamp,
            HeaderName::MessageSignature => self.message_signature,
            HeaderName::MessageType => self.message_type,
        }
    }

    /// The first required header, in the order id, timestamp, signature,
    /// type, that is missing.
    pub open spec fn first_missing(self) -> Option<HeaderName> {
        if self.message_id is None {
            Some(HeaderName::MessageId)
        } else if self.message_timestamp is None {
            Some(HeaderName::MessageTimestamp)
        } else if self.message_signature is None {
            Some(HeaderName::MessageSignature)
        } else if self.message_type is None {
            Some(HeaderName::MessageType)
        } else {
            None
        }
    }

    /// The signed message: id, timestamp and body joined.
    pub open spec fn signed_message(self) -> Seq<char>
        recommends
            self.first_missing() is None,
    {
        self.message_id->0 + self.message_timestamp->0 + self.body
    }
}

/// The authenticator's verdict on a notification under a shared secret.
pub open spec fn auth_verdict(n: NotificationView, secret: Seq<char>) -> Result<(), Rejection> {
    match n.first_missing() {
        Some(h) => Err(Rejection::MissingHeader(h)),
        None => if n.message_signature->0 == expected_signature(secret, n.signed_message()) {
            Ok(())
        } else {
            Err(Rejection::SignatureMismatch)
        },
    }
}

/// Authentication is a function of the headers, the body and the secret
/// alone: the same triple always meets the same verdict.
pub proof fn lemma_authentication_repeatable(
    n1: NotificationView,
    n2: NotificationView,
    secret1: Seq<char>,
    secret2: Seq<char>,
)
    requires
        n1 == n2,
        secret1 == secret2,
    ensures
        auth_verdict(n1, secret1) == auth_verdict(n2, secret2),
{
}

/// Checks that all four headers are present, in the order id, timestamp,
/// signature, type, and names the first one missing.
pub fn check_headers(n: &Notification) -> (r: Result<(), Rejection>)
    ensures
        r == (match n@.first_missing() {
            Some(h) => Err(Rejection::MissingHeader(h)),
            None => Ok(()),
        }),
{
    if n.message_id.is_none() {
        return Err(Rejection::MissingHeader(HeaderName::MessageId));
    }
    if n.message_timestamp.is_none() {
        return Err(Rejection::MissingHeader(HeaderName::MessageTimestamp));
    }
    if n.message_signature.is_none() {
        return Err(Rejection::MissingHeader(HeaderName::MessageSignature));
    }
    if n.message_type.is_none() {
        return Err(Rejection::MissingHeader(HeaderName::MessageType));
    }
    Ok(())
}

/// Authenticates a notification: all four headers present, and the signature
/// header equal to `sha256=` and the HMAC-SHA256 tag of id, timestamp and
/// body under `secret`.
pub fn authenticate(n: &Notification, secret: &str) -> (r: Result<(), Rejection>)
    ensures
        r == auth_verdict(n@, secret@),
{
    check_headers(n)?;
    match (&n.message_id, &n.message_timestamp, &n.message_signature) {
        (Some(id), Some(timestamp), Some(signature)) => {
            let message = get_hmac_message(id, timestamp, &n.body);
            let expected = signature_value(secret, message.as_str());
            if constant_time_eq(expected.as_str(), signature.as_str()) {
                Ok(())
            } else {
                Err(Rejection::SignatureMismatch)
            }
        },
        _ => Err(Rejection::MissingHeader(HeaderName::MessageId)),
    }
}

} // verus!
