//! Classification of the provider's response body: the literal `Forbidden`
//! sentinel, a JSON success envelope `{"message": ..., "id": ...}`, a JSON
//! failure envelope `{"message": ...}`, or something else entirely.

use vstd::prelude::*;
use vstd::string::StringExecFns;

use serde_json::Error as SerdeJsonError;

use crate::error::Error;

verus! {

/// Mathematical value of a [`SendMessageResponse`].
pub enum SendMessageResponseView {
    Success { message: Seq<char>, id: Seq<char> },
    Failure { message: Seq<char> },
}

/// Response sent back by the provider after sending a message. The two
/// shapes are told apart structurally, by the presence of `id`.
#[derive(Debug)]
pub enum SendMessageResponse {
    Success { message: String, id: String },
    Failure { message: String },
}

impl View for SendMessageResponse {
    type V = SendMessageResponseView;

    open spec fn view(&self) -> SendMessageResponseView {
        match self {
            SendMessageResponse::Success { message, id } => SendMessageResponseView::Success {
                message: message@,
                id: id@,
            },
            SendMessageResponse::Failure { message } => SendMessageResponseView::Failure {
                message: message@,
            },
        }
    }
}

#[verifier::external_type_specification]
#[verifier::external_body]
pub struct ExSerdeJsonError(SerdeJsonError);

/// What parsing a body as a JSON object of strings yields: nothing when the
/// body is not such an object, else its entries as (key, value) pairs,
/// sorted by key. A function of the body text alone.
pub uninterp spec fn envelope_of(s: Seq<char>) -> Option<Seq<(Seq<char>, Seq<char>)>>;

/// Relies on serde_json::from_str at the type of a string-to-string ordered
/// map: it succeeds exactly when the body is one JSON object whose values
/// are all strings, and iterating the parsed map yields each entry once,
/// sorted by key.
#[verifier::external_body]
fn parse_string_map(body: &str) -> (r: Result<Vec<(String, String)>, SerdeJsonError>)
    ensures
        r is Ok <==> envelope_of(body@) is Some,
        r matches Ok(v) ==> Some(v.deep_view()) == envelope_of(body@),
{
    match serde_json::from_str::<std::collections::BTreeMap<String, String>>(body) {
        Ok(m) => Ok(m.into_iter().collect()),
        Err(e) => Err(e),
    }
}

/// Relies on serde_json::Error's Display rendering for the text of the
/// wrapped parse cause.
#[verifier::external_body]
fn json_error_text(e: &SerdeJsonError) -> String {
    format!("{}", e)
}

/// The value under the first pair whose key matches, if any.
pub open spec fn lookup_pair(pairs: Seq<(Seq<char>, Seq<char>)>, key: Seq<char>) -> Option<
    Seq<char>,
>
    decreases pairs.len(),
{
    if pairs.len() == 0 {
        None
    } else if pairs[0].0 == key {
        Some(pairs[0].1)
    } else {
        lookup_pair(pairs.drop_first(), key)
    }
}

proof fn lemma_lookup_pair_skip(pairs: Seq<(Seq<char>, Seq<char>)>, key: Seq<char>, i: int)
    requires
        0 <= i <= pairs.len(),
        forall|j: int| 0 <= j < i ==> (#[trigger] pairs[j]).0 != key,
    ensures
        lookup_pair(pairs, key) == lookup_pair(pairs.skip(i), key),
    decreases i,
{
    if i > 0 {
        lemma_lookup_pair_skip(pairs, key, i - 1);
        assert(pairs.skip(i - 1).drop_first() =~= pairs.skip(i));
        assert(pairs.skip(i - 1)[0] == pairs[i - 1]);
    } else {
        assert(pairs.skip(0) =~= pairs);
    }
}

/// Find the value under the first pair whose key matches, if any.
fn lookup(pairs: &Vec<(String, String)>, key: &str) -> (r: Option<String>)
    ensures
        crate::message::opt_string_view(r) == lookup_pair(pairs.deep_view(), key@),
{
    let ghost pv = pairs.deep_view();
    let owned_key = key.to_owned();
    let mut i: usize = 0;
    while i < pairs.len()
        invariant
            i <= pairs.len(),
            pv == pairs.deep_view(),
            pv.len() == pairs.len(),
            owned_key@ == key@,
            forall|j: int| 0 <= j < i ==> (#[trigger] pv[j]).0 != key@,
        decreases pairs.len() - i,
    {
        let pair = &pairs[i];
        if pair.0 == owned_key {
            proof {
                lemma_lookup_pair_skip(pv, key@, i as int);
                assert(pv.skip(i as int)[0] == pv[i as int]);
            }
            return Some(pair.1.clone());
        }
        i += 1;
    }
    proof {
        lemma_lookup_pair_skip(pv, key@, pairs.len() as int);
        assert(pv.skip(pairs.len() as int) =~= Seq::<(Seq<char>, Seq<char>)>::empty());
    }
    None
}

/// How a response body must classify.
///
/// The literal body `Forbidden` is the provider's credentials-rejected
/// sentinel, whatever else might parse. Otherwise the body must parse as a
/// JSON object of strings carrying `message`: with an `id` it is a success,
/// without one the provider rejected the send; anything else is
/// undecodable.
pub open spec fn response_classification(
    body: Seq<char>,
    r: Result<SendMessageResponse, Error>,
) -> bool {
    if body == "Forbidden"@ {
        r == Err::<SendMessageResponse, Error>(Error::ApiForbiddenError)
    } else {
        match envelope_of(body) {
            None => r matches Err(Error::DecodeError(_)),
            Some(pairs) => match lookup_pair(pairs, "message"@) {
                None => r matches Err(Error::DecodeError(_)),
                Some(m) => match lookup_pair(pairs, "id"@) {
                    Some(i) => r matches Ok(resp) && resp@ == (SendMessageResponseView::Success {
                        message: m,
                        id: i,
                    }),
                    None => r matches Err(Error::SendRejected(s)) && s@ == m,
                },
            },
        }
    }
}

/// A literal `Forbidden` body always classifies as the credentials-rejected
/// error, whatever else it might have parsed as.
pub proof fn lemma_forbidden_classification(
    body: Seq<char>,
    r: Result<SendMessageResponse, Error>,
)
    requires
        body == "Forbidden"@,
        response_classification(body, r),
    ensures
        r == Err::<SendMessageResponse, Error>(Error::ApiForbiddenError),
{
}

/// Classify the provider's response body.
pub fn classify_response(body: &str) -> (r: Result<SendMessageResponse, Error>)
    ensures
        response_classification(body@, r),
{
    let owned = body.to_owned();
    if owned == String::from_str("Forbidden") {
        return Err(Error::ApiForbiddenError);
    }
    match parse_string_map(body) {
        Err(e) => Err(Error::DecodeError(json_error_text(&e))),
        Ok(pairs) => match lookup(&pairs, "message") {
            None => Err(Error::DecodeError("response shape not recognized".to_owned())),
            Some(message) => match lookup(&pairs, "id") {
                Some(id) => Ok(SendMessageResponse::Success { message, id }),
                None => Err(Error::SendRejected(message)),
            },
        },
    }
}

} // verus!
