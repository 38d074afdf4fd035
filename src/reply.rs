use vstd::prelude::*;
use crate::auth::{HeaderName, Rejection};
use crate::auth::NotificationView;
use crate::dispatch::{callback_model, Outcome, OutcomeView, ParseError};
use crate::signature::expected_signature;

verus! {

/// A response: status code and plain-text body.
#[derive(Debug)]
pub struct Reply {
    pub status: u16,
    pub body: String,
}

pub struct ReplyView {
    pub status: u16,
    pub body: Seq<char>,
}

impl View for Reply {
    type V = ReplyView;

    open spec fn view(&self) -> ReplyView {
        ReplyView { status: self.status, body: self.body@ }
    }
}

pub open spec fn header_label(h: HeaderName) -> Seq<char> {
    match h {
        HeaderName::MessageId => "TWITCH_MESSAGE_ID"@,
        HeaderName::MessageTimestamp => "TWITCH_MESSAGE_TIMESTAMP"@,
        HeaderName::MessageSignature => "TWITCH_MESSAGE_SIGNATURE"@,
        HeaderName::MessageType => "TWITCH_MESSAGE_TYPE"@,
    }
}

pub open spec fn rejection_reason(e: Rejection) -> Seq<char> {
    match e {
        Rejection::MissingHeader(h) => "Missing "@ + header_label(h),
        Rejection::SignatureMismatch => "Not OK!"@,
    }
}

pub open spec fn parse_reason(e: ParseError) -> Seq<char> {
    match e {
        ParseError::MissingChallenge => "Malformed verification body: no challenge"@,
        ParseError::MissingLogin => "Malformed event body: no event.broadcaster_user_login"@,
    }
}

/// The response owed at once for an outcome; none for a forward, which is
/// acknowledged only after the downstream call.
pub open spec fn immediate_reply(o: OutcomeView) -> Option<ReplyView> {
    match o {
        OutcomeView::Rejected(e) => Some(ReplyView { status: 403, body: rejection_reason(e) }),
        OutcomeView::Challenge(c) => Some(ReplyView { status: 200, body: c }),
        OutcomeView::Forward(_) => None,
        OutcomeView::Malformed(e) => Some(ReplyView { status: 400, body: parse_reason(e) }),
    }
}

/// A callback request that lacks one of the four headers, and carries the
/// other three, is refused with status 403 and a reason that names the
/// missing header.
pub proof fn lemma_missing_header_refused(n: NotificationView, secret: Seq<char>, h: HeaderName)
    requires
        n.header(h) is None,
        forall|g: HeaderName| g != h ==> (#[trigger] n.header(g)) is Some,
    ensures
        callback_model(n, secret) == OutcomeView::Rejected(Rejection::MissingHeader(h)),
        immediate_reply(callback_model(n, secret)) == Some(
            ReplyView { status: 403, body: "Missing "@ + header_label(h) },
        ),
{
    assert(n.header(HeaderName::MessageId) is Some || h == HeaderName::MessageId);
    assert(n.header(HeaderName::MessageTimestamp) is Some || h == HeaderName::MessageTimestamp);
    assert(n.header(HeaderName::MessageSignature) is Some || h == HeaderName::MessageSignature);
    assert(n.header(HeaderName::MessageType) is Some || h == HeaderName::MessageType);
}

/// With all four headers present, a signature header equal to `sha256=`
/// followed by the hexadecimal HMAC-SHA256 tag of id, timestamp and body under
/// the secret is accepted; any other value is refused with status 403 and
/// the body `Not OK!`.
pub proof fn lemma_signature_decides(n: NotificationView, secret: Seq<char>)
    requires
        n.first_missing() is None,
    ensures
        n.message_signature == Some(expected_signature(secret, n.signed_message()))
            ==> callback_model(n, secret) !is Rejected,
        n.message_signature != Some(expected_signature(secret, n.signed_message()))
            ==> immediate_reply(callback_model(n, secret)) == Some(
            ReplyView { status: 403, body: "Not OK!"@ },
        ),
{
}

impl HeaderName {
    /// The name under which a missing header is reported.
    pub fn label(&self) -> (r: &'static str)
        ensures
            r@ == header_label(*self),
    {
        match self {
            HeaderName::MessageId => "TWITCH_MESSAGE_ID",
            HeaderName::MessageTimestamp => "TWITCH_MESSAGE_TIMESTAMP",
            HeaderName::MessageSignature => "TWITCH_MESSAGE_SIGNATURE",
            HeaderName::MessageType => "TWITCH_MESSAGE_TYPE",
        }
    }
}

impl Rejection {
    /// The plain-text reason sent with the 403 response.
    pub fn reason(&self) -> (r: String)
        ensures
            r@ == rejection_reason(*self),
    {
        match self {
            Rejection::MissingHeader(h) => "Missing ".to_owned().concat(h.label()),
            Rejection::SignatureMismatch => "Not OK!".to_owned(),
        }
    }
}

impl ParseError {
    /// The plain-text reason sent with the 400 response.
    pub fn reason(&self) -> (r: String)
        ensures
            r@ == parse_reason(*self),
    {
        match self {
            ParseError::MissingChallenge => "Malformed verification body: no challenge".to_owned(),
            ParseError::MissingLogin => "Malformed event body: no event.broadcaster_user_login".to_owned(),
        }
    }
}

impl Outcome {
    /// The response to send at once, or none where a downstream call comes first.
    pub fn reply(&self) -> (r: Option<Reply>)
        ensures
            match r {
                Some(p) => immediate_reply(self@) == Some(p@),
                None => immediate_reply(self@) is None,
            },
    {
        match self {
            Outcome::Rejected(e) => Some(Reply { status: 403, body: e.reason() }),
            Outcome::Challenge(c) => Some(Reply { status: 200, body: c.clone() }),
            Outcome::Forward(_) => None,
            Outcome::Malformed(e) => Some(Reply { status: 400, body: e.reason() }),
        }
    }
}

/// The acknowledgment sent once the downstream call has completed.
pub fn forwarded_reply() -> (r: Reply)
    ensures
        r@ == (ReplyView { status: 200, body: "Ok!"@ }),
{
    Reply { status: 200, body: "Ok!".to_owned() }
}

/// The health check: status 200 and body `OK`, whatever the request holds.
pub fn health() -> (r: Reply)
    ensures
        r@ == (ReplyView { status: 200, body: "OK"@ }),
{
    Reply { status: 200, body: "OK".to_owned() }
}

} // verus!
