use vstd::prelude::*;
use crate::auth::{auth_verdict, authenticate, HeaderName, Notification, NotificationView, Rejection};
use crate::signature::constant_time_eq;

verus! {

/// The string at JSON pointer `pointer` in the JSON document `doc`, if `doc`
/// parses and the pointer leads to a string.
pub uninterp spec fn json_str_at(doc: Seq<char>, pointer: Seq<char>) -> Option<Seq<char>>;

/// The JSON string literal (quoted and escaped) that encodes `s`.
pub uninterp spec fn json_string_literal(s: Seq<char>) -> Seq<char>;

/// Relies on `serde_json::from_str` into a `serde_json::Value`, then
/// `Value::pointer` and `Value::as_str`: the string found depends on the
/// document and the pointer alone.
#[verifier::external_body]
fn json_string_at(doc: &str, pointer: &str) -> (r: Option<String>)
    ensures
        match r {
            Some(s) => json_str_at(doc@, pointer@) == Some(s@),
            None => json_str_at(doc@, pointer@) is None,
        },
{
    let value: serde_json::Value = serde_json::from_str(doc).ok()?;
    value.pointer(pointer).and_then(|v| v.as_str()).map(|s| s.to_string())
}

/// Relies on `serde_json::to_string` on a `str`: the escaped, quoted literal.
/// Serializing a `str` writes into a `Vec<u8>` and cannot fail.
#[verifier::external_body]
fn json_quote(s: &str) -> (r: String)
    ensures
        r@ == json_string_literal(s@),
{
    serde_json::to_string(s).unwrap_or_default()
}

/// Why a notification body could not be read.
#[derive(PartialEq, Eq, Structural, Clone, Copy, Debug)]
pub enum ParseError {
    /// A handshake body without a string `challenge` field.
    MissingChallenge,
    /// An event body without a string `event.broadcaster_user_login` field.
    MissingLogin,
}

/// What to do with one callback request.
#[derive(Debug)]
pub enum Outcome {
    /// Refuse it with status 403.
    Rejected(Rejection),
    /// Answer the handshake with this token, status 200.
    Challenge(String),
    /// Post this JSON body downstream, then acknowledge.
    Forward(String),
    /// Refuse the body with status 400.
    Malformed(ParseError),
}

pub enum OutcomeView {
    Rejected(Rejection),
    Challenge(Seq<char>),
    Forward(Seq<char>),
    Malformed(ParseError),
}

impl View for Outcome {
    type V = OutcomeView;

    open spec fn view(&self) -> OutcomeView {
        match self {
            Outcome::Rejected(e) => OutcomeView::Rejected(*e),
            Outcome::Challenge(c) => OutcomeView::Challenge(c@),
            Outcome::Forward(p) => OutcomeView::Forward(p@),
            Outcome::Malformed(e) => OutcomeView::Malformed(*e),
        }
    }
}

pub open spec fn handshake_type() -> Seq<char> {
    "webhook_callback_verification"@
}

pub open spec fn challenge_pointer() -> Seq<char> {
    "/challenge"@
}

pub open spec fn login_pointer() -> Seq<char> {
    "/event/broadcaster_user_login"@
}

/// The announcement posted when `login` goes live; the login stands in the
/// text and as the channel's path.
pub open spec fn announcement_text(login: Seq<char>) -> Seq<char> {
    "@here: 🚨 "@ + login + " is streaming! 🚨\nhttps://twitch.tv/"@ + login
}

/// The outbound JSON object with the single field `content`.
pub open spec fn content_object(quoted: Seq<char>) -> Seq<char> {
    "{\"content\":"@ + quoted + "}"@
}

/// The outbound body for a stream that `login` started.
pub open spec fn payload_of(login: Seq<char>) -> Seq<char> {
    content_object(json_string_literal(announcement_text(login)))
}

/// The outcome of an authenticated body, keyed on its message type.
pub open spec fn dispatch_model(message_type: Seq<char>, body: Seq<char>) -> OutcomeView {
    if message_type == handshake_type() {
        match json_str_at(body, challenge_pointer()) {
            Some(c) => OutcomeView::Challenge(c),
            None => OutcomeView::Malformed(ParseError::MissingChallenge),
        }
    } else {
        match json_str_at(body, login_pointer()) {
            Some(l) => OutcomeView::Forward(payload_of(l)),
            None => OutcomeView::Malformed(ParseError::MissingLogin),
        }
    }
}

/// The outcome of a callback request under a shared secret.
pub open spec fn callback_model(n: NotificationView, secret: Seq<char>) -> OutcomeView {
    match auth_verdict(n, secret) {
        Err(e) => OutcomeView::Rejected(e),
        Ok(()) => dispatch_model(n.message_type->0, n.body),
    }
}

/// The announcement text for `login`.
pub fn announcement(login: &str) -> (r: String)
    ensures
        r@ == announcement_text(login@),
{
    "@here: 🚨 ".to_owned().concat(login).concat(" is streaming! 🚨\nhttps://twitch.tv/").concat(login)
}

/// Wraps an already quoted JSON string as the object `{"content":...}`.
pub fn content_json(quoted: &str) -> (r: String)
    ensures
        r@ == content_object(quoted@),
{
    "{\"content\":".to_owned().concat(quoted).concat("}")
}

/// The outbound JSON body announcing that `login` is streaming.
pub fn forward_payload(login: &str) -> (r: String)
    ensures
        r@ == payload_of(login@),
{
    let text = announcement(login);
    let quoted = json_quote(text.as_str());
    content_json(quoted.as_str())
}

/// The outcome of a handshake whose body held `challenge`, if any.
pub fn challenge_outcome(challenge: Option<String>) -> (r: Outcome)
    ensures
        r@ == (match challenge {
            Some(c) => OutcomeView::Challenge(c@),
            None => OutcomeView::Malformed(ParseError::MissingChallenge),
        }),
{
    match challenge {
        Some(c) => Outcome::Challenge(c),
        None => Outcome::Malformed(ParseError::MissingChallenge),
    }
}

/// The outcome of an event whose body named the broadcaster `login`, if any.
pub fn event_outcome(login: Option<String>) -> (r: Outcome)
    ensures
        r@ == (match login {
            Some(l) => OutcomeView::Forward(payload_of(l@)),
            None => OutcomeView::Malformed(ParseError::MissingLogin),
        }),
{
    match login {
        Some(l) => Outcome::Forward(forward_payload(l.as_str())),
        None => Outcome::Malformed(ParseError::MissingLogin),
    }
}

/// Dispatches an authenticated body on its message type: the handshake type
/// echoes the challenge; every other type is read as a stream-online event.
pub fn dispatch(message_type: &str, body: &str) -> (r: Outcome)
    ensures
        r@ == dispatch_model(message_type@, body@),
{
    if constant_time_eq(message_type, "webhook_callback_verification") {
        challenge_outcome(json_string_at(body, "/challenge"))
    } else {
        event_outcome(json_string_at(body, "/event/broadcaster_user_login"))
    }
}

/// Authenticates a callback request under `secret` and, if it passes,
/// dispatches it.
pub fn handle_callback(n: &Notification, secret: &str) -> (r: Outcome)
    ensures
        r@ == callback_model(n@, secret@),
{
    match authenticate(n, secret) {
        Err(e) => Outcome::Rejected(e),
        Ok(()) => match &n.message_type {
            Some(t) => dispatch(t.as_str(), n.body.as_str()),
            None => Outcome::Rejected(Rejection::MissingHeader(HeaderName::MessageType)),
        },
    }
}

} // verus!
