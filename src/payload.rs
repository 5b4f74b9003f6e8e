//! Enrichment: turning the two replies of the decoding provider for one
//! transaction hash into a decoded transaction, or into the reason it failed.
use vstd::prelude::*;

verus! {

#[verifier::external_type_specification]
#[verifier::external_body]
pub struct ExJsonValue(serde_json::Value);

#[verifier::external_type_specification]
#[verifier::external_body]
pub struct ExJsonError(serde_json::Error);

/// The JSON document that a text holds, if it holds exactly one.
pub uninterp spec fn json_value_of(text: Seq<char>) -> Option<serde_json::Value>;

/// Relies on `serde_json::from_str`: it parses the whole text as one JSON
/// value, deterministically, and fails on the empty text.
#[verifier::external_body]
fn parse_json(text: &str) -> (r: Result<serde_json::Value, serde_json::Error>)
    ensures
        r is Ok <==> json_value_of(text@) is Some,
        r matches Ok(v) ==> json_value_of(text@) == Some(v),
        text@.len() == 0 ==> r is Err,
{
    serde_json::from_str(text)
}

/// Why a transaction could not be decoded.
#[derive(Clone, Copy, Debug, PartialEq, Eq, Structural)]
pub enum EnrichError {
    /// The provider could not be reached.
    ProviderUnreachable,
    /// The provider answered with a status outside 200..=299.
    ProviderError(u16),
    /// The provider's answer is not one JSON document.
    MalformedPayload,
}

/// What came back from one lookup at the decoding provider.
pub enum LookupReply {
    /// No answer: the connection failed or timed out.
    Unreachable,
    /// An answer, with its HTTP status and body text.
    Answer { status: u16, body: String },
}

/// A transaction hash with its decoded input and its decoded receipt logs.
pub struct DecodedTransaction {
    pub hash: String,
    pub input: serde_json::Value,
    pub logs: serde_json::Value,
}

/// Whether an HTTP status is a success.
pub open spec fn is_success(status: u16) -> bool {
    200 <= status && status <= 299
}

/// The error that one lookup reply stands for, if any.
pub open spec fn reply_error(reply: LookupReply) -> Option<EnrichError> {
    match reply {
        LookupReply::Unreachable => Some(EnrichError::ProviderUnreachable),
        LookupReply::Answer { status, body } => {
            if !is_success(status) {
                Some(EnrichError::ProviderError(status))
            } else if json_value_of(body@) is None {
                Some(EnrichError::MalformedPayload)
            } else {
                None
            }
        },
    }
}

/// The document of a reply that has no error.
pub open spec fn reply_value(reply: LookupReply) -> serde_json::Value
    recommends
        reply_error(reply) is None,
{
    match reply {
        LookupReply::Answer { body, .. } => json_value_of(body@)->Some_0,
        LookupReply::Unreachable => arbitrary(),
    }
}

/// The outcome of decoding from two replies: the input lookup's error comes
/// first, then the logs lookup's; with neither, both documents.
pub open spec fn decode_error(input: LookupReply, logs: LookupReply) -> Option<EnrichError> {
    if reply_error(input) is Some {
        reply_error(input)
    } else {
        reply_error(logs)
    }
}

/// The document of one reply, or why there is none.
fn reply_document(reply: LookupReply) -> (r: Result<serde_json::Value, EnrichError>)
    ensures
        r is Err <==> reply_error(reply) is Some,
        r matches Err(e) ==> reply_error(reply) == Some(e),
        r matches Ok(v) ==> v == reply_value(reply),
{
    match reply {
        LookupReply::Unreachable => Err(EnrichError::ProviderUnreachable),
        LookupReply::Answer { status, body } => {
            if status < 200 || status > 299 {
                Err(EnrichError::ProviderError(status))
            } else {
                match parse_json(body.as_str()) {
                    Ok(v) => Ok(v),
                    Err(_) => Err(EnrichError::MalformedPayload),
                }
            }
        },
    }
}

/// Combines the input and logs lookups for `hash`. Both must succeed; if
/// either fails, the whole decode fails and no partial result is kept.
pub fn decode_transaction(hash: String, input: LookupReply, logs: LookupReply) -> (r: Result<
    DecodedTransaction,
    EnrichError,
>)
    ensures
        r is Err <==> decode_error(input, logs) is Some,
        r matches Err(e) ==> decode_error(input, logs) == Some(e),
        r matches Ok(d) ==> d.hash@ == hash@ && d.input == reply_value(input) && d.logs
            == reply_value(logs),
{
    let input_doc = reply_document(input);
    let logs_doc = reply_document(logs);
    match input_doc {
        Err(e) => Err(e),
        Ok(input) => match logs_doc {
            Err(e) => Err(e),
            Ok(logs) => Ok(DecodedTransaction { hash, input, logs }),
        },
    }
}

} // verus!
