//! Authenticity of inbound requests: a detached Ed25519 signature over the
//! timestamp header followed by the request body.

use vstd::prelude::*;
use vstd::string::StringSliceAdditionalSpecFns;

use sodiumoxide::crypto::sign;

use crate::hex::{decode_hex, hex_decode};

verus! {

/// Whether `signature` is a valid Ed25519 signature of `message` under the
/// public key `key` (raw bytes each).
pub uninterp spec fn ed25519_verifies(signature: Seq<u8>, message: Seq<u8>, key: Seq<u8>) -> bool;

/// Relies on sodiumoxide's `sign::verify_detached` (libsodium's Ed25519
/// check). `Signature::from_bytes` and `PublicKey::from_slice` take the raw
/// bytes first; bytes that they refuse are no valid signature or key.
#[verifier::external_body]
fn verify_detached(signature: &[u8], message: &[u8], key: &[u8]) -> (r: bool)
    ensures
        r == ed25519_verifies(signature@, message@, key@),
{
    match (sign::Signature::from_bytes(signature), sign::PublicKey::from_slice(key)) {
        (Ok(sig), Some(pk)) => sign::verify_detached(&sig, message, &pk),
        _ => false,
    }
}

/// Number of bytes in a public verification key.
pub const PUBLIC_KEY_LEN: usize = 32;

/// Number of bytes in a detached signature.
pub const SIGNATURE_LEN: usize = 64;

/// A public verification key: exactly `PUBLIC_KEY_LEN` bytes.
pub struct PublicKey {
    bytes: Vec<u8>,
}

impl View for PublicKey {
    type V = Seq<u8>;

    closed spec fn view(&self) -> Seq<u8> {
        self.bytes@
    }
}

impl PublicKey {
    #[verifier::type_invariant]
    spec fn inv(&self) -> bool {
        self.bytes@.len() == PUBLIC_KEY_LEN
    }

    /// Takes raw key bytes; `None` unless there are exactly `PUBLIC_KEY_LEN`.
    pub fn from_bytes(bytes: Vec<u8>) -> (r: Option<PublicKey>)
        ensures
            bytes@.len() == PUBLIC_KEY_LEN <==> r is Some,
            r matches Some(k) ==> k@ == bytes@,
    {
        if bytes.len() == PUBLIC_KEY_LEN {
            Some(PublicKey { bytes })
        } else {
            None
        }
    }

    /// The raw key bytes.
    pub fn as_bytes(&self) -> (r: &[u8])
        ensures
            r@ == self@,
            r@.len() == PUBLIC_KEY_LEN,
    {
        proof {
            use_type_invariant(self);
        }
        self.bytes.as_slice()
    }
}

/// Why a request was not accepted as authentic.
#[derive(Clone, Copy, Debug, PartialEq, Eq, Structural)]
pub enum AuthError {
    /// The signature is not `SIGNATURE_LEN` bytes in hexadecimal.
    BadSignatureEncoding,
    /// The signature does not verify.
    SignatureInvalid,
}

/// The message that a request's signature covers: the timestamp header's
/// bytes followed by the body, with no separator.
pub open spec fn signed_message(timestamp: Seq<u8>, body: Seq<u8>) -> Seq<u8> {
    timestamp + body
}

/// The verdict on a request with the hexadecimal signature text `signature`.
pub open spec fn auth_verdict(signature: Seq<u8>, timestamp: Seq<u8>, body: Seq<u8>, key: Seq<u8>) -> Result<(), AuthError> {
    match hex_decode(signature) {
        Some(sig) => if sig.len() != SIGNATURE_LEN {
            Err(AuthError::BadSignatureEncoding)
        } else if ed25519_verifies(sig, signed_message(timestamp, body), key) {
            Ok(())
        } else {
            Err(AuthError::SignatureInvalid)
        },
        None => Err(AuthError::BadSignatureEncoding),
    }
}

/// Builds the signed message: `timestamp` then `body`.
pub fn message_to_verify(timestamp: &str, body: &[u8]) -> (r: Vec<u8>)
    ensures
        r@ == signed_message(timestamp.spec_bytes(), body@),
{
    let ts = timestamp.as_bytes();
    let mut out: Vec<u8> = Vec::new();
    let mut i: usize = 0;
    while i < ts.len()
        invariant
            i <= ts@.len(),
            out@ == ts@.subrange(0, i as int),
        decreases ts@.len() - i,
    {
        out.push(ts[i]);
        i = i + 1;
    }
    let mut j: usize = 0;
    while j < body.len()
        invariant
            j <= body@.len(),
            out@ == ts@ + body@.subrange(0, j as int),
        decreases body@.len() - j,
    {
        out.push(body[j]);
        j = j + 1;
    }
    assert(ts@.subrange(0, ts@.len() as int) =~= ts@);
    assert(body@.subrange(0, body@.len() as int) =~= body@);
    out
}

/// Decides whether a request is authentic: `signature` must be the
/// hexadecimal text of a `SIGNATURE_LEN`-byte Ed25519 signature, under `key`,
/// of the timestamp header's bytes followed by the body. A malformed
/// signature is refused before any cryptographic check.
pub fn verify_request(body: &[u8], signature: &str, timestamp: &str, key: &PublicKey) -> (r: Result<(), AuthError>)
    ensures
        r == auth_verdict(signature.spec_bytes(), timestamp.spec_bytes(), body@, key@),
{
    let sig = match decode_hex(signature) {
        Ok(sig) => sig,
        Err(_) => return Err(AuthError::BadSignatureEncoding),
    };
    if sig.len() != SIGNATURE_LEN {
        return Err(AuthError::BadSignatureEncoding);
    }
    let message = message_to_verify(timestamp, body);
    if verify_detached(sig.as_slice(), message.as_slice(), key.as_bytes()) {
        Ok(())
    } else {
        Err(AuthError::SignatureInvalid)
    }
}

/// A request that carries a well-formed signature which verifies under the
/// key over its timestamp and body is accepted.
pub proof fn lemma_valid_signature_accepted(signature: Seq<u8>, timestamp: Seq<u8>, body: Seq<u8>, key: Seq<u8>)
    requires
        hex_decode(signature) matches Some(sig) && sig.len() == SIGNATURE_LEN
            && ed25519_verifies(sig, timestamp + body, key),
    ensures
        auth_verdict(signature, timestamp, body, key) == Ok::<(), AuthError>(()),
{
}

/// A signature text of odd length, or with a byte that is no hexadecimal
/// digit, is refused as badly encoded whatever the key, timestamp and body,
/// so no cryptographic check decides it.
pub proof fn lemma_malformed_signature_refused(signature: Seq<u8>, timestamp: Seq<u8>, body: Seq<u8>, key: Seq<u8>)
    requires
        signature.len() % 2 == 1 || exists|i: int| 0 <= i < signature.len() && !crate::hex::is_hex_digit(#[trigger] signature[i]),
    ensures
        auth_verdict(signature, timestamp, body, key) == Err::<(), AuthError>(AuthError::BadSignatureEncoding),
{
}

} // verus!
