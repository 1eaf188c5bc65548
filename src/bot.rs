//! The custom bot: messages posted to a webhook, signed when a secret is set.
use vstd::prelude::*;
use vstd::string::*;
use vstd::utf8::encode_utf8;
use crate::json::{decimal, int_text, Json};
use base64::Engine;
use hmac::Mac;

verus! {

/// HMAC-SHA256 keyed with `key`, over an empty message.
pub uninterp spec fn hmac_sha256_empty(key: Seq<u8>) -> Seq<u8>;

/// The standard, padded base64 text of `b`.
pub uninterp spec fn base64_standard(b: Seq<u8>) -> Seq<char>;

/// Relies on hmac's `Hmac<Sha256>`: `new_from_slice` takes a key of any length,
/// and `finalize` gives the 32-byte tag of the (empty) message.
#[verifier::external_body]
fn hmac_of_key(key: &[u8]) -> (r: Vec<u8>)
    ensures
        r@ == hmac_sha256_empty(key@),
        r@.len() == 32,
{
    match hmac::Hmac::<sha2::Sha256>::new_from_slice(key) {
        Ok(m) => m.finalize().into_bytes().to_vec(),
        Err(_) => Vec::new(),
    }
}

/// Relies on base64's `BASE64_STANDARD.encode`: standard alphabet, padded, so
/// four characters for each started group of three bytes.
#[verifier::external_body]
fn base64_encode(b: &[u8]) -> (r: String)
    ensures
        r@ == base64_standard(b@),
        r@.len() == 4 * ((b@.len() + 2) / 3),
{
    base64::prelude::BASE64_STANDARD.encode(b)
}

/// The text that is signed: the timestamp in decimal, a newline, the secret.
pub open spec fn string_to_sign(timestamp: int, secret: Seq<char>) -> Seq<char> {
    decimal(timestamp) + seq!['\n'] + secret
}

/// The webhook signature: the HMAC-SHA256 keyed with the text to sign, in
/// base64.
pub open spec fn signature(timestamp: int, secret: Seq<char>) -> Seq<char> {
    base64_standard(hmac_sha256_empty(encode_utf8(string_to_sign(timestamp, secret))))
}

/// A bot that posts to one webhook.
#[derive(Debug)]
pub struct CustomBot {
    pub webhook_url: String,
    pub secret: Option<String>,
}

impl CustomBot {
    pub fn new(webhook_url: String, secret: Option<String>) -> (r: CustomBot)
        ensures
            r.webhook_url == webhook_url,
            r.secret == secret,
    {
        CustomBot { webhook_url, secret }
    }

    /// The signature for `timestamp` under `secret`.
    pub fn sign(timestamp: i64, secret: &str) -> (r: String)
        ensures
            r@ == signature(timestamp as int, secret@),
            r@.len() == 44,
    {
        let text = int_text(timestamp).concat("\n").concat(secret);
        proof {
            reveal_strlit("\n");
        }
        assert(text@ == string_to_sign(timestamp as int, secret@));
        let mac = hmac_of_key(text.as_str().as_bytes());
        base64_encode(mac.as_slice())
    }

    /// The timestamp and signature to add to a message sent at `now`, when a
    /// secret is set.
    pub fn check_sign(&self, now: i64) -> (r: Option<(i64, String)>)
        ensures
            self.secret is None ==> r is None,
            self.secret matches Some(s) ==> (r matches Some((t, g)) && t == now && g@ == signature(
                now as int,
                s@,
            )),
    {
        match &self.secret {
            Some(s) => Some((now, CustomBot::sign(now, s.as_str()))),
            None => None,
        }
    }

    /// The JSON body posted for a message: `msg_type`, the message under
    /// `key` (`content`, or `card` for a card), and, when a secret is set,
    /// `timestamp` and `sign`.
    pub fn body(&self, msg_type: String, key: String, message: Json, now: i64) -> (r: Json)
        ensures
            r matches Json::Object(f) && ({
                &&& f@[0].0@ == "msg_type"@
                &&& f@[0].1 == Json::Str(msg_type)
                &&& f@[1] == (key, message)
                &&& self.secret is None ==> f@.len() == 2
                &&& self.secret matches Some(s) ==> {
                    &&& f@.len() == 4
                    &&& f@[2].0@ == "timestamp"@
                    &&& f@[2].1 == Json::Int(now)
                    &&& f@[3].0@ == "sign"@
                    &&& f@[3].1 matches Json::Str(g) && g@ == signature(now as int, s@)
                }
            }),
    {
        let mut f: Vec<(String, Json)> = Vec::new();
        f.push((String::from_str("msg_type"), Json::Str(msg_type)));
        f.push((key, message));
        match self.check_sign(now) {
            Some((t, g)) => {
                f.push((String::from_str("timestamp"), Json::Int(t)));
                f.push((String::from_str("sign"), Json::Str(g)));
            },
            None => {},
        }
        proof {
            reveal_strlit("msg_type");
            reveal_strlit("timestamp");
            reveal_strlit("sign");
        }
        Json::Object(f)
    }
}

} // verus!
