//! What to answer to an authenticated interaction.

use vstd::prelude::*;

use crate::discord::{DataResponse, Interaction, Response};
use crate::pokemon::{markdown_text, Pokemon};
use vstd::string::StringSliceAdditionalSpecFns;

use crate::hex::hex_decode;
use crate::signature::{
    auth_verdict, ed25519_verifies, signed_message, verify_request, AuthError, PublicKey,
    SIGNATURE_LEN,
};

verus! {

/// Type tag of a ping interaction.
pub const PING: i8 = 1;

/// Type tag of a pong response.
pub const PONG: i8 = 1;

/// Type tag of a response that carries a message.
pub const CHANNEL_MESSAGE: i8 = 4;

/// Why a request got no successful response.
#[derive(Clone, Debug)]
pub enum RequestError {
    /// The signature is not well-formed hexadecimal of the right length.
    BadSignatureEncoding,
    /// The signature does not verify.
    SignatureInvalid,
    /// The body is not an interaction; the decoder's diagnostic.
    MalformedPayload(String),
    /// A command interaction without data.
    MissingData,
    /// A command interaction whose data has no option.
    MissingOption,
    /// The data provider failed; its message.
    Provider(String),
}

/// The HTTP status that answers each error.
pub open spec fn status_of(e: RequestError) -> u16 {
    match e {
        RequestError::BadSignatureEncoding | RequestError::SignatureInvalid => 401,
        RequestError::MalformedPayload(_) | RequestError::MissingData
        | RequestError::MissingOption => 400,
        RequestError::Provider(_) => 500,
    }
}

/// The text of the body that answers each error.
pub open spec fn message_of(e: RequestError) -> Seq<char> {
    match e {
        RequestError::BadSignatureEncoding => "malformed signature"@,
        RequestError::SignatureInvalid => "unable to verify signature"@,
        RequestError::MalformedPayload(m) => m@,
        RequestError::MissingData => "no data given"@,
        RequestError::MissingOption => "no option given"@,
        RequestError::Provider(m) => m@,
    }
}

impl RequestError {
    /// The HTTP status that answers the error: 401 for authentication,
    /// 400 for a bad payload, 500 for a provider failure.
    pub fn status(&self) -> (r: u16)
        ensures
            r == status_of(*self),
    {
        match self {
            RequestError::BadSignatureEncoding => 401,
            RequestError::SignatureInvalid => 401,
            RequestError::MalformedPayload(_) => 400,
            RequestError::MissingData => 400,
            RequestError::MissingOption => 400,
            RequestError::Provider(_) => 500,
        }
    }

    /// The text of the body that answers the error.
    pub fn message(&self) -> (r: String)
        ensures
            r@ == message_of(*self),
    {
        match self {
            RequestError::BadSignatureEncoding => String::from_str("malformed signature"),
            RequestError::SignatureInvalid => String::from_str("unable to verify signature"),
            RequestError::MalformedPayload(m) => m.clone(),
            RequestError::MissingData => String::from_str("no data given"),
            RequestError::MissingOption => String::from_str("no option given"),
            RequestError::Provider(m) => m.clone(),
        }
    }

    /// The error that answers a failed signature check.
    pub fn from_auth(e: AuthError) -> (r: RequestError)
        ensures
            e == AuthError::BadSignatureEncoding ==> r is BadSignatureEncoding,
            e == AuthError::SignatureInvalid ==> r is SignatureInvalid,
    {
        match e {
            AuthError::BadSignatureEncoding => RequestError::BadSignatureEncoding,
            AuthError::SignatureInvalid => RequestError::SignatureInvalid,
        }
    }
}

/// What an interaction calls for.
#[derive(Debug)]
pub enum Plan {
    /// Answer at once with this response.
    Reply(Response),
    /// Look up the pokemon of this name, then answer with `reply`.
    Lookup(String),
}

/// Whether `r` is a pong with no data.
pub open spec fn is_pong(r: Response) -> bool {
    r.typ == PONG && r.data is None
}

/// Whether `r` is the answer that `plan` gives to `msg`: a pong for a ping;
/// for any other interaction the first option's value to look up, or an
/// error when there is no data or no option.
pub open spec fn planned(msg: Interaction, r: Result<Plan, RequestError>) -> bool {
    if msg.typ == PING {
        r is Ok && r->Ok_0 is Reply && is_pong(r->Ok_0->Reply_0)
    } else {
        match msg.data {
            None => r is Err && r->Err_0 is MissingData,
            Some(d) => if d.options@.len() == 0 {
                r is Err && r->Err_0 is MissingOption
            } else {
                r is Ok && r->Ok_0 is Lookup && r->Ok_0->Lookup_0@ == d.options@[0].value@
            },
        }
    }
}

/// Decides what an authenticated interaction calls for. A ping is answered
/// with a pong; a command takes its first option's value as the name to
/// look up.
pub fn plan(msg: &Interaction) -> (r: Result<Plan, RequestError>)
    ensures
        planned(*msg, r),
{
    if msg.typ == PING {
        return Ok(Plan::Reply(Response { typ: PONG, data: None }));
    }
    match &msg.data {
        None => Err(RequestError::MissingData),
        Some(data) => {
            if data.options.len() == 0 {
                Err(RequestError::MissingOption)
            } else {
                Ok(Plan::Lookup(data.options[0].value.clone()))
            }
        },
    }
}

/// Whether `r` answers the outcome `found` of a lookup: a message with the
/// record's markdown, spoken by no text-to-speech; or the provider's error.
pub open spec fn replied(found: Result<Pokemon, String>, r: Result<Response, RequestError>) -> bool {
    match found {
        Ok(p) => r is Ok && r->Ok_0.typ == CHANNEL_MESSAGE && r->Ok_0.data is Some
            && !r->Ok_0.data->Some_0.tts && r->Ok_0.data->Some_0.content@ == markdown_text(p),
        Err(m) => r is Err && r->Err_0 is Provider && r->Err_0->Provider_0@ == m@,
    }
}

/// The answer to a command once the data provider has been asked.
pub fn reply(found: Result<Pokemon, String>) -> (r: Result<Response, RequestError>)
    ensures
        replied(found, r),
{
    match found {
        Ok(p) => Ok(
            Response {
                typ: CHANNEL_MESSAGE,
                data: Some(DataResponse { tts: false, content: p.markdown() }),
            },
        ),
        Err(m) => Err(RequestError::Provider(m)),
    }
}

/// Every ping is answered with a pong that carries no data, whatever else
/// the interaction holds.
pub proof fn lemma_ping_answered_with_pong(msg: Interaction, r: Result<Plan, RequestError>)
    requires
        msg.typ == PING,
        planned(msg, r),
    ensures
        r is Ok && r->Ok_0 is Reply && r->Ok_0->Reply_0.typ == PONG && r->Ok_0->Reply_0.data is None,
{
}

/// A command without data, and one whose data holds no option, are both
/// refused with a client error (400), and the two errors differ.
pub proof fn lemma_incomplete_command_refused(msg: Interaction, r: Result<Plan, RequestError>)
    requires
        msg.typ != PING,
        msg.data is None || msg.data->Some_0.options@.len() == 0,
        planned(msg, r),
    ensures
        r is Err,
        status_of(r->Err_0) == 400,
        msg.data is None ==> r->Err_0 is MissingData,
        msg.data is Some ==> r->Err_0 is MissingOption,
        r->Err_0 is MissingData != r->Err_0 is MissingOption,
{
}

/// The error that answers an authentication verdict, if any.
pub open spec fn auth_outcome(v: Result<(), AuthError>, r: Result<(), RequestError>) -> bool {
    match v {
        Ok(()) => r is Ok,
        Err(AuthError::BadSignatureEncoding) => r is Err && r->Err_0 is BadSignatureEncoding,
        Err(AuthError::SignatureInvalid) => r is Err && r->Err_0 is SignatureInvalid,
    }
}

/// Checks a request's signature before anything reads its body; a request
/// that fails is answered with the matching error.
pub fn authenticate(body: &[u8], signature: &str, timestamp: &str, key: &PublicKey) -> (r: Result<(), RequestError>)
    ensures
        auth_outcome(auth_verdict(signature.spec_bytes(), timestamp.spec_bytes(), body@, key@), r),
{
    match verify_request(body, signature, timestamp, key) {
        Ok(()) => Ok(()),
        Err(e) => Err(RequestError::from_auth(e)),
    }
}

/// A request whose signature does not pass is answered with 401, whatever
/// its body.
pub proof fn lemma_unauthentic_request_unauthorized(
    signature: Seq<u8>,
    timestamp: Seq<u8>,
    body: Seq<u8>,
    key: Seq<u8>,
    r: Result<(), RequestError>,
)
    requires
        auth_verdict(signature, timestamp, body, key) is Err,
        auth_outcome(auth_verdict(signature, timestamp, body, key), r),
    ensures
        r is Err && status_of(r->Err_0) == 401,
{
}

/// A well-formed signature that Ed25519 does not accept over the timestamp
/// and body (such as a valid one after any change to the body, the
/// signature or the timestamp) is answered with 401, before the body is read.
pub proof fn lemma_unverified_signature_unauthorized(
    signature: Seq<u8>,
    timestamp: Seq<u8>,
    body: Seq<u8>,
    key: Seq<u8>,
    r: Result<(), RequestError>,
)
    requires
        hex_decode(signature) matches Some(sig) && sig.len() == SIGNATURE_LEN
            && !ed25519_verifies(sig, signed_message(timestamp, body), key),
        auth_outcome(auth_verdict(signature, timestamp, body, key), r),
    ensures
        r is Err && r->Err_0 is SignatureInvalid && status_of(r->Err_0) == 401,
{
}

} // verus!
