use vstd::prelude::*;
use ed25519_dalek::Verifier;
use crate::errors::PipelineError;
use crate::hexcode::{hex_bytes, hex_decode, hex_ok};

verus! {

/// Whether 32 bytes decompress to a usable ed25519 public key.
pub uninterp spec fn ed25519_key_ok(key: Seq<u8>) -> bool;

/// Whether `sig` is a valid ed25519 signature by `key` over `msg`.
pub uninterp spec fn ed25519_valid(key: Seq<u8>, msg: Seq<u8>, sig: Seq<u8>) -> bool;

/// The bytes the platform signs: the raw timestamp header followed by the
/// raw request body, with no separator or re-encoding.
pub open spec fn signed_message(ts: Seq<char>, body: Seq<u8>) -> Seq<u8> {
    vstd::utf8::encode_utf8(ts) + body
}

/// The key bytes a configured hex string denotes, if it is well-formed:
/// even-length hex, exactly 32 bytes, and a decodable curve point.
pub open spec fn key_spec(s: Seq<char>) -> Option<Seq<u8>> {
    if hex_ok(s) && hex_bytes(s).len() == 32 && ed25519_key_ok(hex_bytes(s)) {
        Some(hex_bytes(s))
    } else {
        None
    }
}

/// Relies on `ed25519_dalek::VerifyingKey::from_bytes`: it succeeds exactly
/// when the bytes decompress to a curve point, from the bytes alone.
#[verifier::external_body]
fn ed25519_key_parses(key: &[u8]) -> (r: bool)
    requires
        key@.len() == 32,
    ensures
        r == ed25519_key_ok(key@),
{
    let arr: [u8; 32] = match key.try_into() {
        Ok(a) => a,
        Err(_) => return false,
    };
    ed25519_dalek::VerifyingKey::from_bytes(&arr).is_ok()
}

/// Relies on `ed25519_dalek::VerifyingKey::verify` (with the signature read
/// by `Signature::from_bytes`): acceptance is a function of the key, message
/// and signature bytes alone.
#[verifier::external_body]
fn ed25519_verify(key: &[u8], msg: &[u8], sig: &[u8]) -> (r: bool)
    requires
        key@.len() == 32,
        sig@.len() == 64,
        ed25519_key_ok(key@),
    ensures
        r == ed25519_valid(key@, msg@, sig@),
{
    let key_arr: [u8; 32] = match key.try_into() {
        Ok(a) => a,
        Err(_) => return false,
    };
    let sig_arr: [u8; 64] = match sig.try_into() {
        Ok(a) => a,
        Err(_) => return false,
    };
    match ed25519_dalek::VerifyingKey::from_bytes(&key_arr) {
        Ok(vk) => vk.verify(msg, &ed25519_dalek::Signature::from_bytes(&sig_arr)).is_ok(),
        Err(_) => false,
    }
}

/// `a` followed by `b`, as a fresh vector.
pub fn concat_bytes(a: &[u8], b: &[u8]) -> (r: Vec<u8>)
    ensures
        r@ == a@ + b@,
{
    let mut r: Vec<u8> = Vec::new();
    let mut i: usize = 0;
    while i < a.len()
        invariant
            i <= a@.len(),
            r@ == a@.subrange(0, i as int),
        decreases a@.len() - i,
    {
        r.push(a[i]);
        i += 1;
    }
    let mut j: usize = 0;
    while j < b.len()
        invariant
            j <= b@.len(),
            r@ == a@.subrange(0, a@.len() as int) + b@.subrange(0, j as int),
        decreases b@.len() - j,
    {
        r.push(b[j]);
        j += 1;
    }
    proof {
        assert(r@ =~= a@ + b@);
    }
    r
}

/// The configured verification key, decoded once at start-up. A value of
/// this type always holds exactly 32 bytes that form a usable key.
pub struct VerifierKey {
    bytes: Vec<u8>,
}

impl View for VerifierKey {
    type V = Seq<u8>;

    closed spec fn view(&self) -> Seq<u8> {
        self.bytes@
    }
}

impl VerifierKey {
    #[verifier::type_invariant]
    spec fn wf(self) -> bool {
        self.bytes@.len() == 32 && ed25519_key_ok(self.bytes@)
    }

    /// Decode the configured hex key; any malformation is the configuration
    /// failure `InvalidKey`, never a silent pass.
    pub fn from_hex(s: &str) -> (r: Result<VerifierKey, PipelineError>)
        ensures
            r is Ok <==> key_spec(s@) is Some,
            r matches Ok(k) ==> key_spec(s@) == Some(k@),
            r matches Err(e) ==> e == PipelineError::InvalidKey,
    {
        let decoded = match hex_decode(s) {
            Some(v) => v,
            None => return Err(PipelineError::InvalidKey),
        };
        if decoded.len() != 32 {
            return Err(PipelineError::InvalidKey);
        }
        if !ed25519_key_parses(decoded.as_slice()) {
            return Err(PipelineError::InvalidKey);
        }
        Ok(VerifierKey { bytes: decoded })
    }

    /// Check the detached signature over `timestamp || body` against this key.
    pub fn authenticate(&self, timestamp: &str, sig_bytes: &Vec<u8>, body: &Vec<u8>) -> (r: bool)
        requires
            sig_bytes@.len() == 64,
        ensures
            r == ed25519_valid(self@, signed_message(timestamp@, body@), sig_bytes@),
    {
        proof {
            use_type_invariant(self);
        }
        let msg = concat_bytes(timestamp.as_bytes(), body.as_slice());
        ed25519_verify(self.bytes.as_slice(), msg.as_slice(), sig_bytes.as_slice())
    }
}

} // verus!
