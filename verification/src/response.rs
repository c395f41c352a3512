//! The client-visible response value and the error mapper: the single
//! chokepoint that turns every internal failure into a structured,
//! client-safe payload.

use vstd::prelude::*;
use crate::errors::GatewayError;

verus! {

/// The body of a response: either text (sent as its UTF-8 bytes) or raw
/// bytes (a compressed payload).
pub enum ResponseBody {
    Text(String),
    Bytes(Vec<u8>),
}

/// The mathematical shape of a response body.
#[verifier::ext_equal]
pub enum BodyModel {
    Text(Seq<char>),
    Bytes(Seq<u8>),
}

impl View for ResponseBody {
    type V = BodyModel;

    open spec fn view(&self) -> BodyModel {
        match self {
            ResponseBody::Text(s) => BodyModel::Text(s@),
            ResponseBody::Bytes(b) => BodyModel::Bytes(b@),
        }
    }
}

/// One response per request: a status, the two headers the gateway sets, and
/// the body. This is the only value the pipeline ever hands back to the
/// transport for a request.
pub struct OutgoingResponse {
    pub status: u16,
    pub content_type: String,
    /// Set exactly when the body was compressed.
    pub content_encoding: Option<String>,
    pub body: ResponseBody,
}

/// The mathematical shape of a response.
#[verifier::ext_equal]
pub struct ResponseModel {
    pub status: u16,
    pub content_type: Seq<char>,
    pub content_encoding: Option<Seq<char>>,
    pub body: BodyModel,
}

impl View for OutgoingResponse {
    type V = ResponseModel;

    open spec fn view(&self) -> ResponseModel {
        ResponseModel {
            status: self.status,
            content_type: self.content_type@,
            content_encoding: match self.content_encoding {
                Option::Some(e) => Option::Some(e@),
                Option::None => Option::None,
            },
            body: self.body@,
        }
    }
}

/// The transport status each error kind maps to: client errors for requests
/// the gateway rejects, server errors for failures of the gateway's own
/// dependencies.
pub open spec fn spec_status_of(e: GatewayError) -> u16 {
    match e {
        GatewayError::MissingUrl => 400u16,
        GatewayError::InvalidUrlScheme => 400u16,
        GatewayError::BackendConnectFailed => 502u16,
        GatewayError::BackendIoFailed => 502u16,
        GatewayError::BackendMalformedResponse => 502u16,
        GatewayError::BackendReportedError => 502u16,
        GatewayError::CompressionFailed => 500u16,
        GatewayError::ResponseWriteFailed => 500u16,
    }
}

/// The stable, coarse message for each error kind. No backend address or
/// raw protocol fragment ever appears here.
pub open spec fn spec_error_message(e: GatewayError) -> Seq<char> {
    match e {
        GatewayError::MissingUrl => "No URL provided. Use ?url=https://example.com"@,
        GatewayError::InvalidUrlScheme => "The url parameter must be an absolute http or https URL"@,
        GatewayError::BackendConnectFailed => "Could not reach the content service"@,
        GatewayError::BackendIoFailed => "The content service connection failed"@,
        GatewayError::BackendMalformedResponse => "The content service sent an unexpected reply"@,
        GatewayError::BackendReportedError => "The content service could not retrieve the page"@,
        GatewayError::CompressionFailed => "Could not encode the response"@,
        GatewayError::ResponseWriteFailed => "Could not write the response"@,
    }
}

/// The structured error payload: a JSON object with a status tag and the
/// kind's stable message.
pub open spec fn spec_error_body(e: GatewayError) -> Seq<char> {
    "{\"status\":\"error\",\"error\":\""@ + spec_error_message(e) + "\"}"@
}

/// The full client-visible response for an error kind.
pub open spec fn spec_error_response(e: GatewayError) -> ResponseModel {
    ResponseModel {
        status: spec_status_of(e),
        content_type: "application/json"@,
        content_encoding: Option::None,
        body: BodyModel::Text(spec_error_body(e)),
    }
}

/// The transport status for an error kind.
pub fn status_of(e: GatewayError) -> (r: u16)
    ensures
        r == spec_status_of(e),
{
    match e {
        GatewayError::MissingUrl => 400,
        GatewayError::InvalidUrlScheme => 400,
        GatewayError::BackendConnectFailed => 502,
        GatewayError::BackendIoFailed => 502,
        GatewayError::BackendMalformedResponse => 502,
        GatewayError::BackendReportedError => 502,
        GatewayError::CompressionFailed => 500,
        GatewayError::ResponseWriteFailed => 500,
    }
}

/// The stable message for an error kind.
pub fn error_message(e: GatewayError) -> (r: &'static str)
    ensures
        r@ == spec_error_message(e),
{
    match e {
        GatewayError::MissingUrl => "No URL provided. Use ?url=https://example.com",
        GatewayError::InvalidUrlScheme => "The url parameter must be an absolute http or https URL",
        GatewayError::BackendConnectFailed => "Could not reach the content service",
        GatewayError::BackendIoFailed => "The content service connection failed",
        GatewayError::BackendMalformedResponse => "The content service sent an unexpected reply",
        GatewayError::BackendReportedError => "The content service could not retrieve the page",
        GatewayError::CompressionFailed => "Could not encode the response",
        GatewayError::ResponseWriteFailed => "Could not write the response",
    }
}

/// The error mapper: translates any internal error kind into the one
/// client-visible payload for it. Every failure branch of the pipeline ends
/// here, so every request gets exactly one structured answer.
pub fn map_error(e: GatewayError) -> (r: OutgoingResponse)
    ensures
        r@ == spec_error_response(e),
{
    let mut body = String::new();
    body.append("{\"status\":\"error\",\"error\":\"");
    body.append(error_message(e));
    body.append("\"}");
    proof {
        assert(body@ =~= spec_error_body(e));
    }
    let r = OutgoingResponse {
        status: status_of(e),
        content_type: String::from_str("application/json"),
        content_encoding: Option::None,
        body: ResponseBody::Text(body),
    };
    proof {
        assert(r@ =~= spec_error_response(e));
    }
    r
}

} // verus!
