//! The signed webhook endpoint: signature check and event dispatch.

use ed25519_dalek::{Signature, Verifier, VerifyingKey};
use vstd::prelude::*;
use vstd::string::StringSliceAdditionalSpecFns;

use crate::models::discord_events::DiscordEventWrapper;
use crate::status::Status;
use crate::text::str_eq;

verus! {

/// The value of a hexadecimal digit byte, either case.
pub open spec fn hex_digit_value(b: u8) -> Option<u8> {
    if 48 <= b && b <= 57 {
        Some((b - 48) as u8)
    } else if 65 <= b && b <= 70 {
        Some((b - 55) as u8)
    } else if 97 <= b && b <= 102 {
        Some((b - 87) as u8)
    } else {
        None
    }
}

/// Hex decoding of a text's bytes: an even number of hexadecimal digits, each pair
/// one byte, high digit first.
pub open spec fn spec_hex_decode(text: Seq<u8>) -> Option<Seq<u8>>
    decreases text.len(),
{
    if text.len() % 2 != 0 {
        None
    } else if text.len() == 0 {
        Some(Seq::empty())
    } else {
        match (hex_digit_value(text[0]), hex_digit_value(text[1]), spec_hex_decode(text.skip(2))) {
            (Some(h), Some(l), Some(rest)) => Some(seq![(h * 16 + l) as u8] + rest),
            _ => None,
        }
    }
}

/// `hex::decode`: the bytes that `text` spells in hexadecimal, or `None` when its
/// length is odd or it holds a byte that is no hexadecimal digit. This claims that
/// the crate decodes exactly as `spec_hex_decode` says, which is what its `val`
/// and `FromHex for Vec<u8>` do.
#[verifier::external_body]
fn hex_decode(text: &str) -> (r: Option<Vec<u8>>)
    ensures
        match spec_hex_decode(text.spec_bytes()) {
            Some(b) => r matches Some(v) && v@ == b,
            None => r is None,
        },
{
    hex::decode(text).ok()
}

/// Whether Ed25519 accepts `signature` on `message` under the public key whose
/// compressed form is `public_key`: the key decompresses to a curve point and the
/// signature verifies under it.
pub uninterp spec fn ed25519_accepts(
    public_key: Seq<u8>,
    message: Seq<u8>,
    signature: Seq<u8>,
) -> bool;

/// `ed25519_dalek::VerifyingKey::from_bytes`, then `Signature::from_bytes` and
/// `Verifier::verify`: claims only that the answer is the named function of the key,
/// message and signature bytes; what Ed25519 accepts is not stated.
#[verifier::external_body]
fn ed25519_verify(public_key: &[u8; 32], message: &[u8], signature: &[u8; 64]) -> (ok: bool)
    ensures
        ok == ed25519_accepts(public_key@, message@, signature@),
{
    match VerifyingKey::from_bytes(public_key) {
        Ok(key) => key.verify(message, &Signature::from_bytes(signature)).is_ok(),
        Err(_) => false,
    }
}

/// The signature check requires that, when both hex texts decode, the key gives at
/// least the 32 bytes of a compressed key.
pub open spec fn signature_inputs_usable(public_key_hex: Seq<u8>, signature_hex: Seq<u8>) -> bool {
    spec_hex_decode(signature_hex) is Some ==> (spec_hex_decode(public_key_hex) matches Some(k)
        ==> k.len() >= 32)
}

/// Whether Discord signed this request: both hex texts decode, the signature has
/// 64 bytes, and Ed25519 accepts it on the timestamp followed by the body under the
/// first 32 bytes of the key.
pub open spec fn spec_signature_valid(
    public_key_hex: Seq<u8>,
    signature_hex: Seq<u8>,
    timestamp: Seq<u8>,
    body: Seq<u8>,
) -> bool {
    match (spec_hex_decode(public_key_hex), spec_hex_decode(signature_hex)) {
        (Some(key), Some(sig)) => sig.len() == 64 && ed25519_accepts(
            key.take(32),
            timestamp + body,
            sig,
        ),
        _ => false,
    }
}

/// Checks Discord's Ed25519 signature of a webhook request.
pub fn verify_discord_signature(
    public_key_hex: &str,
    signature_hex: &str,
    timestamp: &str,
    body: &[u8],
) -> (ok: bool)
    requires
        signature_inputs_usable(public_key_hex.spec_bytes(), signature_hex.spec_bytes()),
    ensures
        ok == spec_signature_valid(
            public_key_hex.spec_bytes(),
            signature_hex.spec_bytes(),
            timestamp.spec_bytes(),
            body@,
        ),
{
    let public_key_bytes = match hex_decode(public_key_hex) {
        Some(b) => b,
        None => {
            return false;
        },
    };
    let signature_bytes = match hex_decode(signature_hex) {
        Some(b) => b,
        None => {
            return false;
        },
    };
    let mut key = [0u8; 32];
    let mut i: usize = 0;
    while i < 32
        invariant
            i <= 32,
            public_key_bytes@.len() >= 32,
            forall|j: int| 0 <= j < i ==> key@[j] == public_key_bytes@[j],
        decreases 32 - i,
    {
        key[i] = public_key_bytes[i];
        i = i + 1;
    }
    assert(key@ =~= public_key_bytes@.take(32));
    if signature_bytes.len() != 64 {
        return false;
    }
    let mut sig = [0u8; 64];
    let mut k: usize = 0;
    while k < 64
        invariant
            k <= 64,
            signature_bytes@.len() == 64,
            forall|j: int| 0 <= j < k ==> sig@[j] == signature_bytes@[j],
        decreases 64 - k,
    {
        sig[k] = signature_bytes[k];
        k = k + 1;
    }
    assert(sig@ =~= signature_bytes@);
    let ts = timestamp.as_bytes();
    let mut message: Vec<u8> = Vec::new();
    let mut m: usize = 0;
    while m < ts.len()
        invariant
            m <= ts@.len(),
            message@ == ts@.take(m as int),
        decreases ts@.len() - m,
    {
        message.push(ts[m]);
        m = m + 1;
        assert(message@ =~= ts@.take(m as int));
    }
    let mut n: usize = 0;
    while n < body.len()
        invariant
            n <= body@.len(),
            message@ == ts@ + body@.take(n as int),
        decreases body@.len() - n,
    {
        message.push(body[n]);
        n = n + 1;
        assert(message@ =~= ts@ + body@.take(n as int));
    }
    assert(ts@.take(ts@.len() as int) =~= ts@);
    assert(body@.take(body@.len() as int) =~= body@);
    ed25519_verify(&key, message.as_slice(), &sig)
}

/// Whether a signed request passes: both signature headers are present, the public
/// key is configured, and the signature checks out. Missing headers or a bad
/// signature are unauthorized; a missing key is a server error.
pub open spec fn spec_request_check(
    signature: Option<Seq<u8>>,
    timestamp: Option<Seq<u8>>,
    public_key_hex: Option<Seq<u8>>,
    body: Seq<u8>,
) -> Result<(), Status> {
    match (signature, timestamp) {
        (Some(sig), Some(ts)) => match public_key_hex {
            Some(key) => if spec_signature_valid(key, sig, ts, body) {
                Ok(())
            } else {
                Err(Status::Unauthorized)
            },
            None => Err(Status::InternalServerError),
        },
        _ => Err(Status::Unauthorized),
    }
}

pub open spec fn opt_bytes(s: Option<&str>) -> Option<Seq<u8>> {
    match s {
        Some(t) => Some(t.spec_bytes()),
        None => None,
    }
}

/// Checks the signature headers of a webhook request against the configured key.
pub fn check_discord_request(
    signature: Option<&str>,
    timestamp: Option<&str>,
    public_key_hex: Option<&str>,
    body: &[u8],
) -> (r: Result<(), Status>)
    requires
        signature is Some && timestamp is Some && public_key_hex is Some ==> signature_inputs_usable(
            public_key_hex->0.spec_bytes(),
            signature->0.spec_bytes(),
        ),
    ensures
        r == spec_request_check(
            opt_bytes(signature),
            opt_bytes(timestamp),
            opt_bytes(public_key_hex),
            body@,
        ),
{
    let signature = match signature {
        Some(s) => s,
        None => {
            return Err(Status::Unauthorized);
        },
    };
    let timestamp = match timestamp {
        Some(t) => t,
        None => {
            return Err(Status::Unauthorized);
        },
    };
    let public_key_hex = match public_key_hex {
        Some(k) => k,
        None => {
            return Err(Status::InternalServerError);
        },
    };
    if !verify_discord_signature(public_key_hex, signature, timestamp, body) {
        return Err(Status::Unauthorized);
    }
    Ok(())
}

/// What the webhook endpoint does with a parsed event.
#[derive(Debug, Clone, Copy, PartialEq, Eq, Structural)]
pub enum DiscordEventAction {
    /// Run the authorization handler on the event's data.
    Authorized,
    /// Run the deauthorization handler on the event's data.
    Deauthorized,
    /// Acknowledge without acting.
    Ignore,
}

/// Dispatch on the event's name; an envelope without event is only acknowledged.
pub fn discord_event_action(payload: &DiscordEventWrapper) -> (a: DiscordEventAction)
    ensures
        a == (match payload.event {
            Some(e) => if e.event_name@ == "APPLICATION_AUTHORIZED"@ {
                DiscordEventAction::Authorized
            } else if e.event_name@ == "APPLICATION_DEAUTHORIZED"@ {
                DiscordEventAction::Deauthorized
            } else {
                DiscordEventAction::Ignore
            },
            None => DiscordEventAction::Ignore,
        }),
{
    match &payload.event {
        Some(e) => {
            if str_eq(e.event_name.as_str(), "APPLICATION_AUTHORIZED") {
                DiscordEventAction::Authorized
            } else if str_eq(e.event_name.as_str(), "APPLICATION_DEAUTHORIZED") {
                DiscordEventAction::Deauthorized
            } else {
                DiscordEventAction::Ignore
            }
        },
        None => DiscordEventAction::Ignore,
    }
}

} // verus!
