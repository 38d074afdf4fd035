use hmac::Mac;
use twitch_relay::{
    announcement, authenticate, challenge_outcome, check_headers, constant_time_eq, content_json,
    dispatch, event_outcome, forward_payload, forwarded_reply, get_hmac, get_hmac_message,
    handle_callback, health, signature_value, HeaderName, Notification, Outcome, ParseError,
    Rejection,
};

const SECRET: &str = "s3cr3t-key";
const ID: &str = "e76c6bd4-55c9-4987-8304-da1588d8988b";
const TIMESTAMP: &str = "2023-01-01T12:00:00.000000000Z";
const HANDSHAKE: &str = "webhook_callback_verification";

fn sign(secret: &str, id: &str, timestamp: &str, body: &str) -> String {
    let mut mac = hmac::Hmac::<sha2::Sha256>::new_from_slice(secret.as_bytes()).unwrap();
    mac.update(id.as_bytes());
    mac.update(timestamp.as_bytes());
    mac.update(body.as_bytes());
    format!("sha256={}", hex::encode(mac.finalize().into_bytes()))
}

fn signed(message_type: &str, body: &str) -> Notification {
    Notification {
        message_id: Some(ID.to_string()),
        message_timestamp: Some(TIMESTAMP.to_string()),
        message_signature: Some(sign(SECRET, ID, TIMESTAMP, body)),
        message_type: Some(message_type.to_string()),
        body: body.to_string(),
    }
}

fn reply_of(o: &Outcome) -> (u16, String) {
    let r = o.reply().expect("an immediate reply");
    (r.status, r.body)
}

#[test]
fn health_check_is_ok() {
    let r = health();
    assert_eq!(r.status, 200);
    assert_eq!(r.body, "OK");
}

#[test]
fn each_missing_header_is_named() {
    let body = r#"{"challenge":"abc123"}"#;
    let cases = [
        (HeaderName::MessageId, "Missing TWITCH_MESSAGE_ID"),
        (HeaderName::MessageTimestamp, "Missing TWITCH_MESSAGE_TIMESTAMP"),
        (HeaderName::MessageSignature, "Missing TWITCH_MESSAGE_SIGNATURE"),
        (HeaderName::MessageType, "Missing TWITCH_MESSAGE_TYPE"),
    ];
    for (h, text) in cases {
        let mut n = signed(HANDSHAKE, body);
        match h {
            HeaderName::MessageId => n.message_id = None,
            HeaderName::MessageTimestamp => n.message_timestamp = None,
            HeaderName::MessageSignature => n.message_signature = None,
            HeaderName::MessageType => n.message_type = None,
        }
        assert_eq!(check_headers(&n), Err(Rejection::MissingHeader(h)));
        let o = handle_callback(&n, SECRET);
        assert_eq!(reply_of(&o), (403, text.to_string()));
    }
}

#[test]
fn first_missing_header_in_order_is_reported() {
    let mut n = signed("stream.online", "{}");
    n.message_signature = None;
    n.message_type = None;
    assert_eq!(
        authenticate(&n, SECRET),
        Err(Rejection::MissingHeader(HeaderName::MessageSignature))
    );
}

#[test]
fn hmac_matches_known_vector() {
    assert_eq!(
        get_hmac("key", "The quick brown fox jumps over the lazy dog"),
        "f7bc83f430538424b13298e6aa6fb143ef4d59a14946175997479dbc2d1a3cd8"
    );
    assert_eq!(
        signature_value("key", "The quick brown fox jumps over the lazy dog"),
        "sha256=f7bc83f430538424b13298e6aa6fb143ef4d59a14946175997479dbc2d1a3cd8"
    );
}

#[test]
fn signed_message_is_plain_concatenation() {
    let m = get_hmac_message(&"id1".to_string(), &"ts2".to_string(), &"{body}".to_string());
    assert_eq!(m, "id1ts2{body}");
    let e = get_hmac_message(&String::new(), &String::new(), &String::new());
    assert_eq!(e, "");
}

#[test]
fn valid_signature_is_accepted() {
    let n = signed("stream.online", r#"{"event":{"broadcaster_user_login":"x"}}"#);
    assert_eq!(authenticate(&n, SECRET), Ok(()));
}

#[test]
fn single_bit_flips_are_rejected() {
    let body = r#"{"challenge":"abc123"}"#;
    let flip = |s: &str| {
        let mut b = s.as_bytes().to_vec();
        b[0] ^= 1;
        String::from_utf8(b).unwrap()
    };
    let mut by_id = signed(HANDSHAKE, body);
    by_id.message_id = Some(flip(ID));
    let mut by_ts = signed(HANDSHAKE, body);
    by_ts.message_timestamp = Some(flip(TIMESTAMP));
    let mut by_body = signed(HANDSHAKE, body);
    by_body.body = flip(body);
    let n = signed(HANDSHAKE, body);
    for (n, secret) in [(&by_id, SECRET), (&by_ts, SECRET), (&by_body, SECRET)] {
        assert_eq!(authenticate(n, secret), Err(Rejection::SignatureMismatch));
        assert_eq!(reply_of(&handle_callback(n, secret)), (403, "Not OK!".to_string()));
    }
    let other_secret = flip(SECRET);
    assert_eq!(authenticate(&n, &other_secret), Err(Rejection::SignatureMismatch));
    assert_eq!(reply_of(&handle_callback(&n, &other_secret)), (403, "Not OK!".to_string()));
}

#[test]
fn uppercase_signature_is_rejected() {
    let mut n = signed(HANDSHAKE, r#"{"challenge":"abc123"}"#);
    let upper = n.message_signature.clone().unwrap().to_uppercase();
    n.message_signature = Some(upper);
    assert_eq!(authenticate(&n, SECRET), Err(Rejection::SignatureMismatch));
}

#[test]
fn handshake_echoes_challenge() {
    let n = signed(HANDSHAKE, r#"{"challenge":"abc123"}"#);
    let o = handle_callback(&n, SECRET);
    assert!(matches!(&o, Outcome::Challenge(c) if c == "abc123"));
    assert_eq!(reply_of(&o), (200, "abc123".to_string()));
}

#[test]
fn event_is_forwarded_as_announcement() {
    let n = signed("notification", r#"{"event":{"broadcaster_user_login":"shroud"}}"#);
    let o = handle_callback(&n, SECRET);
    match &o {
        Outcome::Forward(p) => assert_eq!(
            p,
            "{\"content\":\"@here: 🚨 shroud is streaming! 🚨\\nhttps://twitch.tv/shroud\"}"
        ),
        other => panic!("expected a forward, got {:?}", other),
    }
    assert!(o.reply().is_none());
    let ack = forwarded_reply();
    assert_eq!((ack.status, ack.body), (200, "Ok!".to_string()));
}

#[test]
fn authentication_is_repeatable() {
    let good = signed("notification", "{}");
    let mut bad = signed("notification", "{}");
    bad.body = "{ }".to_string();
    for n in [&good, &bad] {
        assert_eq!(authenticate(n, SECRET), authenticate(n, SECRET));
    }
    assert_eq!(authenticate(&good, SECRET), Ok(()));
    assert_eq!(authenticate(&bad, SECRET), Err(Rejection::SignatureMismatch));
}

#[test]
fn unknown_type_falls_through_to_event() {
    let o = dispatch("something.else", r#"{"challenge":"abc123"}"#);
    assert!(matches!(o, Outcome::Malformed(ParseError::MissingLogin)));
    assert_eq!(
        reply_of(&o),
        (400, "Malformed event body: no event.broadcaster_user_login".to_string())
    );
}

#[test]
fn malformed_handshake_body_is_refused() {
    for body in ["not json", r#"{"challenge":5}"#, r#"{"other":"x"}"#, ""] {
        let o = handle_callback(&signed(HANDSHAKE, body), SECRET);
        assert!(matches!(o, Outcome::Malformed(ParseError::MissingChallenge)));
        assert_eq!(reply_of(&o), (400, "Malformed verification body: no challenge".to_string()));
    }
}

#[test]
fn event_without_login_is_refused() {
    for body in [r#"{"event":{}}"#, r#"{"event":"shroud"}"#, "[1,2]"] {
        let o = dispatch("notification", body);
        assert!(matches!(o, Outcome::Malformed(ParseError::MissingLogin)));
    }
}

#[test]
fn handshake_type_is_case_sensitive() {
    let o = dispatch("Webhook_Callback_Verification", r#"{"challenge":"abc123"}"#);
    assert!(matches!(o, Outcome::Malformed(ParseError::MissingLogin)));
}

#[test]
fn announcement_uses_login_twice() {
    assert_eq!(
        announcement("ninja"),
        "@here: 🚨 ninja is streaming! 🚨\nhttps://twitch.tv/ninja"
    );
}

#[test]
fn payload_escapes_json_specials() {
    assert_eq!(content_json("\"x\""), "{\"content\":\"x\"}");
    let p = forward_payload("a\"b");
    assert_eq!(
        p,
        "{\"content\":\"@here: 🚨 a\\\"b is streaming! 🚨\\nhttps://twitch.tv/a\\\"b\"}"
    );
}

#[test]
fn outcome_helpers_cover_absent_fields() {
    assert!(matches!(challenge_outcome(None), Outcome::Malformed(ParseError::MissingChallenge)));
    assert!(matches!(challenge_outcome(Some("t".to_string())), Outcome::Challenge(c) if c == "t"));
    assert!(matches!(event_outcome(None), Outcome::Malformed(ParseError::MissingLogin)));
    assert!(
        matches!(event_outcome(Some("z".to_string())), Outcome::Forward(p) if p.contains("twitch.tv/z"))
    );
}

#[test]
fn equality_compares_whole_strings() {
    assert!(constant_time_eq("", ""));
    assert!(constant_time_eq("sha256=ab", "sha256=ab"));
    assert!(!constant_time_eq("sha256=ab", "sha256=ac"));
    assert!(!constant_time_eq("abc", "ab"));
    assert!(!constant_time_eq("é", "e"));
}

#[test]
fn rejection_reasons() {
    assert_eq!(Rejection::SignatureMismatch.reason(), "Not OK!");
    assert_eq!(
        Rejection::MissingHeader(HeaderName::MessageTimestamp).reason(),
        "Missing TWITCH_MESSAGE_TIMESTAMP"
    );
    assert_eq!(HeaderName::MessageType.label(), "TWITCH_MESSAGE_TYPE");
    assert_eq!(ParseError::MissingChallenge.reason(), "Malformed verification body: no challenge");
}
