use vstd::prelude::*;
use vstd::utf8::*;
use hmac::Mac;

verus! {

broadcast use {encode_utf8_decode_utf8, encode_utf8_valid_utf8};

/// The HMAC-SHA256 tag of `msg` under `key`.
pub uninterp spec fn hmac_sha256(key: Seq<u8>, msg: Seq<u8>) -> Seq<u8>;

/// The lowercase hexadecimal digit for a value below sixteen.
pub open spec fn hex_digit(v: u8) -> char {
    seq!['0', '1', '2', '3', '4', '5', '6', '7', '8', '9', 'a', 'b', 'c', 'd', 'e', 'f'][v as int]
}

/// Lowercase hexadecimal text of `b`: two digits per byte, high nibble first.
pub open spec fn hex_lower(b: Seq<u8>) -> Seq<char>
    decreases b.len(),
{
    if b.len() == 0 {
        Seq::empty()
    } else {
        hex_lower(b.drop_last()) + seq![hex_digit(b.last() / 16), hex_digit(b.last() % 16)]
    }
}

/// The text `sha256=` that precedes the hexadecimal tag in a signature header.
pub open spec fn signature_prefix() -> Seq<char> {
    seq!['s', 'h', 'a', '2', '5', '6', '=']
}

/// The signature header value that the holder of `secret` sends for `message`.
pub open spec fn expected_signature(secret: Seq<char>, message: Seq<char>) -> Seq<char> {
    signature_prefix() + hex_lower(hmac_sha256(encode_utf8(secret), encode_utf8(message)))
}

/// Relies on the `hmac` crate's `Hmac<Sha256>` (`new_from_slice`, `update`,
/// `finalize`): the tag depends on key and message alone. `new_from_slice`
/// accepts keys of every length for HMAC.
#[verifier::external_body]
fn hmac_sha256_tag(key: &[u8], msg: &[u8]) -> (r: Vec<u8>)
    ensures
        r@ == hmac_sha256(key@, msg@),
{
    let mut mac = hmac::Hmac::<sha2::Sha256>::new_from_slice(key).unwrap();
    mac.update(msg);
    mac.finalize().into_bytes().to_vec()
}

/// Relies on `hex::encode`: two lowercase digits per byte, in order.
#[verifier::external_body]
fn hex_encode(b: &[u8]) -> (r: String)
    ensures
        r@ == hex_lower(b@),
{
    hex::encode(b)
}

/// The message that is signed: id, timestamp and body, joined without delimiter.
pub fn get_hmac_message(twitch_message_id: &String, twitch_message_timestamp: &String, body: &String) -> (r: String)
    ensures
        r@ == twitch_message_id@ + twitch_message_timestamp@ + body@,
{
    let result = String::new();
    let result = result.concat(twitch_message_id.as_str());
    let result = result.concat(twitch_message_timestamp.as_str());
    result.concat(body.as_str())
}

/// Lowercase hexadecimal HMAC-SHA256 tag of `message` keyed by `secret`,
/// both taken as UTF-8 bytes.
pub fn get_hmac(secret: &str, message: &str) -> (r: String)
    ensures
        r@ == hex_lower(hmac_sha256(encode_utf8(secret@), encode_utf8(message@))),
{
    let tag = hmac_sha256_tag(secret.as_bytes(), message.as_bytes());
    hex_encode(tag.as_slice())
}

/// The full signature header value: `sha256=` followed by the hexadecimal tag.
pub fn signature_value(secret: &str, message: &str) -> (r: String)
    ensures
        r@ == expected_signature(secret@, message@),
{
    let prefix = "sha256=";
    proof {
        reveal_strlit("sha256=");
    }
    let hex = get_hmac(secret, message);
    let r = prefix.to_owned().concat(hex.as_str());
    assert(r@ =~= expected_signature(secret@, message@));
    r
}

proof fn lemma_or_xor_zero(d: u8, x: u8, y: u8)
    ensures
        (d | (x ^ y)) == 0 <==> (d == 0 && x == y),
{
    assert((d | (x ^ y)) == 0 <==> (d == 0 && x == y)) by (bit_vector);
}

/// Compares two strings in time that depends on their lengths alone, not on
/// where they first differ.
pub fn constant_time_eq(a: &str, b: &str) -> (r: bool)
    ensures
        r == (a@ == b@),
{
    let x = a.as_bytes();
    let y = b.as_bytes();
    if x.len() != y.len() {
        proof {
            if a@ == b@ {
                assert(x@ == y@);
            }
        }
        return false;
    }
    let mut diff: u8 = 0;
    let mut i: usize = 0;
    assert(x@.subrange(0, 0) =~= y@.subrange(0, 0));
    while i < x.len()
        invariant
            x@ == encode_utf8(a@),
            y@ == encode_utf8(b@),
            x@.len() == y@.len(),
            i <= x@.len(),
            (diff == 0) <==> (x@.subrange(0, i as int) == y@.subrange(0, i as int)),
        decreases x@.len() - i,
    {
        let d = diff | (x[i] ^ y[i]);
        proof {
            lemma_or_xor_zero(diff, x@[i as int], y@[i as int]);
            assert(x@.subrange(0, i + 1) == x@.subrange(0, i as int).push(x@[i as int]));
            assert(y@.subrange(0, i + 1) == y@.subrange(0, i as int).push(y@[i as int]));
            if x@.subrange(0, i + 1) == y@.subrange(0, i + 1) {
                assert(x@.subrange(0, i + 1)[i as int] == y@.subrange(0, i + 1)[i as int]);
                assert(x@.subrange(0, i as int) == x@.subrange(0, i + 1).drop_last());
                assert(y@.subrange(0, i as int) == y@.subrange(0, i + 1).drop_last());
            }
        }
        diff = d;
        i = i + 1;
    }
    proof {
        assert(x@.subrange(0, x@.len() as int) == x@);
        assert(y@.subrange(0, y@.len() as int) == y@);
        if x@ == y@ {
            assert(decode_utf8(encode_utf8(a@)) == decode_utf8(encode_utf8(b@)));
        }
    }
    diff == 0
}

} // verus!
