//! The request dispatcher: extracts and validates the target-resource
//! parameter and decides, for every request, whether the backend is called
//! or the request is answered at once. Validation failures never reach the
//! backend.

use vstd::prelude::*;
use crate::errors::{ValidationError, BackendError, GatewayError};
use crate::errors::{spec_of_validation, spec_of_backend, of_validation, of_backend};
use crate::query::{query_pairs_of, spec_first_param, parse_query_pairs, first_param};
use crate::strutil::{is_prefix_of, has_prefix};
use crate::response::{OutgoingResponse, spec_error_response, map_error};
use crate::backend::{ScrapeResult, ScrapeResultModel, outcome_view};
use crate::encoder::{
    encode_success, spec_success_plain, spec_success_compressed, brotli_of, brotli_decoded,
};

verus! {

/// A single validated target: an absolute URL with an http or https scheme.
/// Invalid or missing input never produces one.
pub struct ScrapeRequest {
    pub url: String,
}

/// The URL declares an http or https scheme (and so is non-empty).
pub open spec fn spec_has_scheme(u: Seq<char>) -> bool {
    is_prefix_of("http://"@, u) || is_prefix_of("https://"@, u)
}

impl ScrapeRequest {
    /// What every `ScrapeRequest` that the dispatcher hands on satisfies.
    pub open spec fn wf(&self) -> bool {
        spec_has_scheme(self.url@)
    }
}

/// Whether `u` declares an http or https scheme.
pub fn has_http_scheme(u: &String) -> (r: bool)
    ensures
        r == spec_has_scheme(u@),
{
    has_prefix(u.as_str(), "http://") || has_prefix(u.as_str(), "https://")
}

/// What `parse_target` decides for a query string: the first `url`
/// parameter's value if it is a well-schemed URL, and otherwise which
/// validation error the request is answered with.
pub open spec fn spec_parse_target(q: Seq<char>) -> Result<Seq<char>, ValidationError> {
    match spec_first_param(query_pairs_of(q), "url"@) {
        Option::None => Result::Err(ValidationError::MissingUrl),
        Option::Some(u) => if spec_has_scheme(u) {
            Result::Ok(u)
        } else {
            Result::Err(ValidationError::InvalidScheme)
        },
    }
}

/// Parses the query string into ordered pairs and validates the first `url`
/// parameter. Absent parameter: `MissingUrl`; present but not http/https:
/// `InvalidScheme`; otherwise the validated target.
pub fn parse_target(query: &str) -> (r: Result<ScrapeRequest, ValidationError>)
    ensures
        match r {
            Result::Ok(sr) => spec_parse_target(query@) == Result::<_, ValidationError>::Ok(sr.url@)
                && sr.wf(),
            Result::Err(e) => spec_parse_target(query@) == Result::<Seq<char>, _>::Err(e),
        },
{
    let pairs = parse_query_pairs(query);
    let key = String::from_str("url");
    match first_param(&pairs, &key) {
        Option::None => Result::Err(ValidationError::MissingUrl),
        Option::Some(u) => {
            if has_http_scheme(&u) {
                Result::Ok(ScrapeRequest { url: u })
            } else {
                Result::Err(ValidationError::InvalidScheme)
            }
        },
    }
}

/// What the dispatcher decides for one request: call the backend with the
/// one validated target, or answer at once with the mapped validation
/// error. There is no third outcome, so a rejected request never reaches
/// the backend and an accepted one reaches it exactly once.
pub enum RequestPlan {
    CallBackend(ScrapeRequest),
    Respond(OutgoingResponse),
}

/// Decides a request from its query string alone: exactly one backend call
/// for a request whose `url` parameter validates, and an immediate mapped
/// error answer — the early exit is the contract, not an optimization —
/// for every other request.
pub fn plan_request(query: &str) -> (r: RequestPlan)
    ensures
        match spec_parse_target(query@) {
            Result::Ok(u) => r matches RequestPlan::CallBackend(sr) && sr.url@ == u && sr.wf(),
            Result::Err(e) => r matches RequestPlan::Respond(resp) && resp@ == spec_error_response(
                spec_of_validation(e),
            ),
        },
{
    match parse_target(query) {
        Result::Ok(sr) => RequestPlan::CallBackend(sr),
        Result::Err(e) => RequestPlan::Respond(map_error(of_validation(e))),
    }
}

/// Turns the backend exchange's outcome into the one response the request
/// is answered with: content is encoded (compressed when asked), a failure
/// the backend reported and every backend error get their mapped payloads,
/// and a compression failure falls back to its own mapped payload. Every
/// outcome yields exactly one response.
pub fn finish_request(outcome: Result<ScrapeResult, BackendError>, compress: bool) -> (r:
    OutgoingResponse)
    ensures
        match outcome_view(outcome) {
            Result::Ok(ScrapeResultModel::Success { content, charset }) => if compress {
                (r@ == spec_success_compressed(content, charset)
                    && brotli_decoded(brotli_of(content)) == Some(content))
                    || r@ == spec_error_response(GatewayError::CompressionFailed)
            } else {
                r@ == spec_success_plain(content, charset)
            },
            Result::Ok(ScrapeResultModel::Failure { message }) => r@ == spec_error_response(
                GatewayError::BackendReportedError,
            ),
            Result::Err(e) => r@ == spec_error_response(spec_of_backend(e)),
        },
{
    match outcome {
        Result::Ok(ScrapeResult::Success { content, charset }) => {
            match encode_success(content, charset, compress) {
                Result::Ok(resp) => resp,
                Result::Err(e) => map_error(e),
            }
        },
        Result::Ok(ScrapeResult::Failure { message: _ }) => map_error(
            GatewayError::BackendReportedError,
        ),
        Result::Err(be) => map_error(of_backend(be)),
    }
}

/// Law: a query with no `url` parameter is rejected with `MissingUrl`; the
/// dispatcher then answers directly and no backend call is planned.
pub proof fn lemma_missing_url_rejected(q: Seq<char>)
    requires
        spec_first_param(query_pairs_of(q), "url"@) is None,
    ensures
        spec_parse_target(q) == Result::<Seq<char>, _>::Err(ValidationError::MissingUrl),
{
}

/// Law: a query whose first `url` parameter is a well-schemed absolute URL
/// is accepted with exactly that URL, so exactly one backend call is
/// planned for it.
pub proof fn lemma_valid_url_accepted(q: Seq<char>, u: Seq<char>)
    requires
        spec_first_param(query_pairs_of(q), "url"@) == Option::Some(u),
        spec_has_scheme(u),
    ensures
        spec_parse_target(q) == Result::<_, ValidationError>::Ok(u),
{
}

} // verus!
