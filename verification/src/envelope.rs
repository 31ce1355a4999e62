//! The boundary to the GraphQL engine and to the JSON codec: the request
//! envelope and the execution result are values of `juniper`, read and
//! written by `serde_json`. Nothing in this file is proved; the rest of the
//! library is proved against what is stated here.

use vstd::prelude::*;
use juniper::http::{GraphQLRequest, GraphQLResponse};

verus! {

/// `juniper::http::GraphQLRequest`: a decoded request envelope with the
/// operation text, the operation name and the variables. The library hands
/// it on and never looks inside.
#[verifier::external_type_specification]
#[verifier::external_body]
pub struct ExGraphQLRequest(juniper::http::GraphQLRequest);

/// `juniper::http::GraphQLResponse`: the result of an execution, data and
/// field errors alike. The library hands it on and never looks inside.
#[verifier::external_type_specification]
#[verifier::external_body]
pub struct ExGraphQLResponse<'a>(juniper::http::GraphQLResponse<'a>);

/// How `serde_json::from_slice` rejects a body as a request envelope: the
/// text that its error displays, or `None` where it accepts the body.
pub uninterp spec fn decode_failure(body: Seq<u8>) -> Option<Seq<char>>;

/// The envelope that `serde_json::from_slice` reads from a body that it
/// accepts. Of a body that it rejects this says nothing.
pub uninterp spec fn envelope_of(body: Seq<u8>) -> GraphQLRequest;

/// What `serde_json::to_string_pretty` writes for an execution result: the
/// text, or the text that its error displays where it fails. The writer
/// walks the result's own lists in their order and reads nothing else, so
/// this is a function of the result alone.
pub uninterp spec fn encoding(result: GraphQLResponse) -> Result<Seq<char>, Seq<char>>;

/// Calls `serde_json::from_slice` for a `GraphQLRequest`. The outcome is a
/// function of the bytes alone: the envelope that `envelope_of` names where
/// the bytes are one, and otherwise the text that the error displays, which
/// is what `decode_failure` names.
#[verifier::external_body]
pub(crate) fn decode(body: &[u8]) -> (decoded: Result<GraphQLRequest, String>)
    ensures
        match decoded {
            Ok(envelope) => decode_failure(body@) is None && envelope == envelope_of(body@),
            Err(description) => decode_failure(body@) == Some(description@),
        },
{
    match serde_json::from_slice::<GraphQLRequest>(body) {
        Ok(envelope) => Ok(envelope),
        Err(error) => Err(error.to_string()),
    }
}

/// Calls `serde_json::to_string_pretty` on an execution result. What comes
/// back is what `encoding` names for that result: the text, or, where the
/// codec fails, the text that its error displays. That there is a text is
/// not claimed.
#[verifier::external_body]
pub(crate) fn encode<'a>(result: &GraphQLResponse<'a>) -> (encoded: Result<String, String>)
    ensures
        match encoded {
            Ok(text) => encoding(*result) == Ok::<Seq<char>, Seq<char>>(text@),
            Err(description) => encoding(*result) == Err::<Seq<char>, Seq<char>>(description@),
        },
{
    match serde_json::to_string_pretty(result) {
        Ok(text) => Ok(text),
        Err(error) => Err(error.to_string()),
    }
}

} // verus!
