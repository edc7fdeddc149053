//! The policy itself: from the configured metadata to the outcome that the
//! filter pipeline acts on.

use crate::metadata::{clone_map, members, pretty_json, to_pretty_json, Member};
use crate::response::{
    bytes_from, is_header_name, is_header_value, lowercase, new_builder, response_view, with_body,
    with_header, with_status, HeaderLine, ResponseView,
};
use bytes::Bytes;
use http::{Request, Response};
use indexmap::IndexMap;
use serde_json::Value;
use vstd::multiset::Multiset;
use vstd::prelude::*;
use vstd::utf8::encode_utf8;

verus! {

/// Answers requests for the OAuth 2.0 protected resource metadata of a
/// resource server with the document that the operator configured.
#[derive(Debug)]
pub struct OAuthProtectedResource {
    /// Key-value pairs to include in the metadata document, in the order in
    /// which they are served.
    pub metadata: IndexMap<String, Value>,
}

/// What the filter pipeline is to do with a request.
#[derive(Debug)]
pub enum PolicyOutcome {
    /// Stop processing and send this response to the client.
    DirectResponse(Response<Bytes>),
    /// No opinion: go on as if the policy were absent.
    PassThrough,
}

/// A `PolicyOutcome`, with the response as a client sees it.
pub enum OutcomeView {
    /// This response is sent.
    DirectResponse(ResponseView),
    /// The request goes on.
    PassThrough,
}

/// Why a request could not be answered.
#[derive(Debug)]
pub enum PolicyError {
    /// The response could not be assembled.
    Http(http::Error),
}

impl View for OAuthProtectedResource {
    type V = Seq<Member>;

    open spec fn view(&self) -> Seq<Member> {
        members(self.metadata)
    }
}

impl Clone for OAuthProtectedResource {
    fn clone(&self) -> (copy: Self)
        ensures
            copy@ == self@,
    {
        OAuthProtectedResource { metadata: clone_map(&self.metadata) }
    }
}

impl View for PolicyOutcome {
    type V = OutcomeView;

    open spec fn view(&self) -> OutcomeView {
        match self {
            PolicyOutcome::DirectResponse(response) => OutcomeView::DirectResponse(
                response_view(*response),
            ),
            PolicyOutcome::PassThrough => OutcomeView::PassThrough,
        }
    }
}

/// The status of every metadata response.
pub const STATUS_OK: u16 = 200;

/// The header lines of every metadata response.
pub open spec fn metadata_headers() -> Multiset<HeaderLine> {
    Multiset::empty().insert(("content-type"@, "application/json"@)).insert(
        ("cache-control"@, "public, max-age=3600"@),
    ).insert(("access-control-allow-origin"@, "*"@)).insert(
        ("access-control-allow-methods"@, "GET, OPTIONS"@),
    ).insert(("access-control-allow-headers"@, "content-type"@))
}

/// The response that serves `document`.
pub open spec fn metadata_response(document: Seq<char>) -> ResponseView {
    ResponseView { status: STATUS_OK, headers: metadata_headers(), body: encode_utf8(document) }
}

/// The outcome for metadata that printed as `document`, or did not print.
pub open spec fn outcome_for(document: Option<Seq<char>>) -> OutcomeView {
    match document {
        Some(text) => OutcomeView::DirectResponse(metadata_response(text)),
        None => OutcomeView::PassThrough,
    }
}

/// Each header line of a metadata response is accepted as it is written.
proof fn lemma_header_lines_accepted()
    ensures
        is_header_name("content-type"@),
        is_header_name("cache-control"@),
        is_header_name("access-control-allow-origin"@),
        is_header_name("access-control-allow-methods"@),
        is_header_name("access-control-allow-headers"@),
        lowercase("content-type"@) == "content-type"@,
        lowercase("cache-control"@) == "cache-control"@,
        lowercase("access-control-allow-origin"@) == "access-control-allow-origin"@,
        lowercase("access-control-allow-methods"@) == "access-control-allow-methods"@,
        lowercase("access-control-allow-headers"@) == "access-control-allow-headers"@,
        is_header_value("application/json"@),
        is_header_value("public, max-age=3600"@),
        is_header_value("*"@),
        is_header_value("GET, OPTIONS"@),
        is_header_value("content-type"@),
{
    reveal_strlit("content-type");
    reveal_strlit("cache-control");
    reveal_strlit("access-control-allow-origin");
    reveal_strlit("access-control-allow-methods");
    reveal_strlit("access-control-allow-headers");
    reveal_strlit("application/json");
    reveal_strlit("public, max-age=3600");
    reveal_strlit("*");
    reveal_strlit("GET, OPTIONS");
}

/// Builds the response that serves `document`. The header lines are fixed and
/// each of them is well formed, so this never fails.
pub fn direct_response(document: String) -> (result: Result<Response<Bytes>, PolicyError>)
    ensures
        result matches Ok(response) && response_view(response) == metadata_response(document@),
{
    proof {
        lemma_header_lines_accepted();
    }
    let builder = with_status(new_builder(), STATUS_OK);
    let builder = with_header(builder, "content-type", "application/json");
    let builder = with_header(builder, "cache-control", "public, max-age=3600");
    let builder = with_header(builder, "access-control-allow-origin", "*");
    let builder = with_header(builder, "access-control-allow-methods", "GET, OPTIONS");
    let builder = with_header(builder, "access-control-allow-headers", "content-type");
    match with_body(builder, bytes_from(document)) {
        Ok(response) => Ok(response),
        Err(error) => Err(PolicyError::Http(error)),
    }
}

/// Decides the outcome from what the serializer made of the metadata: a
/// document is served, a failure to print lets the request pass.
pub fn outcome_of(serialized: Result<String, serde_json::Error>) -> (result: Result<
    PolicyOutcome,
    PolicyError,
>)
    ensures
        result matches Ok(outcome) && outcome@ == outcome_for(
            match serialized {
                Ok(document) => Some(document@),
                Err(_) => None,
            },
        ),
{
    match serialized {
        Ok(document) => match direct_response(document) {
            Ok(response) => Ok(PolicyOutcome::DirectResponse(response)),
            Err(error) => Err(error),
        },
        Err(_) => Ok(PolicyOutcome::PassThrough),
    }
}

impl OAuthProtectedResource {
    /// The document that is served: the metadata as a pretty-printed JSON
    /// object, its members in their configured order. `None` where the
    /// metadata cannot be printed.
    pub open spec fn document(&self) -> Option<Seq<char>> {
        pretty_json(self@)
    }

    /// What `apply` answers to `req`.
    pub open spec fn outcome(&self, req: &Request<Bytes>) -> OutcomeView {
        outcome_for(self.document())
    }

    /// Answers `req` with the metadata document. The request is not looked
    /// at: routing has happened before. Metadata that cannot be printed lets
    /// the request pass.
    #[allow(unused_variables)]
    pub fn apply(&self, req: &Request<Bytes>) -> (result: Result<PolicyOutcome, PolicyError>)
        ensures
            result matches Ok(outcome) && outcome@ == self.outcome(req),
    {
        outcome_of(to_pretty_json(&self.metadata))
    }
}

/// Metadata that can be printed is served: with status 200, the five fixed
/// header lines, and the printed document as the body.
pub proof fn lemma_printable_metadata_is_served(
    config: &OAuthProtectedResource,
    req: &Request<Bytes>,
)
    requires
        config.document() is Some,
    ensures
        config.outcome(req) == OutcomeView::DirectResponse(
            ResponseView {
                status: 200,
                headers: metadata_headers(),
                body: encode_utf8(config.document().unwrap()),
            },
        ),
{
}

/// Metadata that cannot be printed lets the request pass.
pub proof fn lemma_unprintable_metadata_passes(
    config: &OAuthProtectedResource,
    req: &Request<Bytes>,
)
    requires
        config.document() is None,
    ensures
        config.outcome(req) == OutcomeView::PassThrough,
{
}

/// Status and header lines are the same for every configuration and every
/// request that is served.
pub proof fn lemma_head_does_not_depend_on_metadata(
    one: &OAuthProtectedResource,
    other: &OAuthProtectedResource,
    one_req: &Request<Bytes>,
    other_req: &Request<Bytes>,
)
    requires
        one.outcome(one_req) is DirectResponse,
        other.outcome(other_req) is DirectResponse,
    ensures
        one.outcome(one_req)->DirectResponse_0.status == other.outcome(
            other_req,
        )->DirectResponse_0.status,
        one.outcome(one_req)->DirectResponse_0.headers == other.outcome(
            other_req,
        )->DirectResponse_0.headers,
{
}

/// The header lines are five, and none of them is set twice.
pub proof fn lemma_metadata_headers_are_five_lines()
    ensures
        metadata_headers().len() == 5,
        metadata_headers().count(("content-type"@, "application/json"@)) == 1,
        metadata_headers().count(("cache-control"@, "public, max-age=3600"@)) == 1,
        metadata_headers().count(("access-control-allow-origin"@, "*"@)) == 1,
        metadata_headers().count(("access-control-allow-methods"@, "GET, OPTIONS"@)) == 1,
        metadata_headers().count(("access-control-allow-headers"@, "content-type"@)) == 1,
{
    reveal_strlit("content-type");
    reveal_strlit("cache-control");
    reveal_strlit("access-control-allow-origin");
    reveal_strlit("access-control-allow-methods");
    reveal_strlit("access-control-allow-headers");
    assert("content-type"@.len() == 12);
    assert("cache-control"@.len() == 13);
    assert("access-control-allow-origin"@.len() == 27);
    assert("access-control-allow-methods"@.len() == 28);
    assert("access-control-allow-methods"@[21] != "access-control-allow-headers"@[21]);
}

/// Applying one configuration twice, to whatever requests, gives the same
/// outcome, down to the octets of the body.
pub proof fn lemma_apply_is_repeatable(
    config: &OAuthProtectedResource,
    first_req: &Request<Bytes>,
    second_req: &Request<Bytes>,
    first: Result<PolicyOutcome, PolicyError>,
    second: Result<PolicyOutcome, PolicyError>,
)
    requires
        first matches Ok(outcome) && outcome@ == config.outcome(first_req),
        second matches Ok(outcome) && outcome@ == config.outcome(second_req),
    ensures
        first.unwrap()@ == second.unwrap()@,
{
}

} // verus!
