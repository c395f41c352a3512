//! The backend client's protocol logic: framing the one request each
//! exchange sends, and interpreting the one reply it yields. Two wire
//! shapes share one contract: a text-framed exchange (request line plus
//! headers, blank line, JSON body) and a message-framed exchange (one JSON
//! message each way). The sockets themselves live outside this crate; these
//! functions turn plain values into frames and frames back into a
//! `ScrapeResult` or a typed error, failing closed on any deviation.

use vstd::prelude::*;
use crate::errors::BackendError;
use crate::dispatch::ScrapeRequest;
use crate::strutil::{spec_json_escape, json_escape};

verus! {

/// What one backend exchange yields: the page content (with an optional
/// charset), or the backend's own failure report.
pub enum ScrapeResult {
    Success { content: String, charset: Option<String> },
    Failure { message: String },
}

/// The mathematical shape of a `ScrapeResult`.
#[verifier::ext_equal]
pub enum ScrapeResultModel {
    Success { content: Seq<char>, charset: Option<Seq<char>> },
    Failure { message: Seq<char> },
}

impl View for ScrapeResult {
    type V = ScrapeResultModel;

    open spec fn view(&self) -> ScrapeResultModel {
        match self {
            ScrapeResult::Success { content, charset } => ScrapeResultModel::Success {
                content: content@,
                charset: match charset {
                    Option::Some(c) => Option::Some(c@),
                    Option::None => Option::None,
                },
            },
            ScrapeResult::Failure { message } => ScrapeResultModel::Failure {
                message: message@,
            },
        }
    }
}

/// A backend exchange's outcome, seen mathematically.
pub open spec fn outcome_view(r: Result<ScrapeResult, BackendError>) -> Result<
    ScrapeResultModel,
    BackendError,
> {
    match r {
        Result::Ok(s) => Result::Ok(s@),
        Result::Err(e) => Result::Err(e),
    }
}

/// The three fields the gateway reads from a backend reply body, each
/// present or not.
pub struct RawReply {
    pub content: Option<String>,
    pub charset: Option<String>,
    pub error: Option<String>,
}

/// The mathematical shape of the fields read from a reply body.
#[verifier::ext_equal]
pub struct ReplyFields {
    pub content: Option<Seq<char>>,
    pub charset: Option<Seq<char>>,
    pub error: Option<Seq<char>>,
}

impl View for RawReply {
    type V = ReplyFields;

    open spec fn view(&self) -> ReplyFields {
        ReplyFields {
            content: match self.content {
                Option::Some(c) => Option::Some(c@),
                Option::None => Option::None,
            },
            charset: match self.charset {
                Option::Some(c) => Option::Some(c@),
                Option::None => Option::None,
            },
            error: match self.error {
                Option::Some(c) => Option::Some(c@),
                Option::None => Option::None,
            },
        }
    }
}

/// What reading `body` as a JSON object yields for the three fields the
/// reply protocol documents: `None` when `body` is not a JSON object, and
/// otherwise each field's string value where the object has one.
pub uninterp spec fn reply_fields_of(body: Seq<char>) -> Option<ReplyFields>;

/// Relies on `serde_json::from_str`, `Value::get` and `Value::as_str`:
/// reads the reply body as JSON and takes the string values of the
/// `content`, `charset` and `error` fields, each where present.
#[verifier::external_body]
pub fn decode_reply_json(body: &str) -> (r: Option<RawReply>)
    ensures
        match r {
            Option::Some(rr) => reply_fields_of(body@) == Option::Some(rr@),
            Option::None => reply_fields_of(body@) is None,
        },
{
    let v: serde_json::Value = match serde_json::from_str(body) {
        Ok(v) => v,
        Err(_) => return None,
    };
    if !v.is_object() {
        return None;
    }
    Some(RawReply {
        content: v.get("content").and_then(|f| f.as_str()).map(|s| s.to_string()),
        charset: v.get("charset").and_then(|f| f.as_str()).map(|s| s.to_string()),
        error: v.get("error").and_then(|f| f.as_str()).map(|s| s.to_string()),
    })
}

/// How the reply's fields are enforced: a `content` field is the page, an
/// `error` field without content is the backend's failure report, and
/// anything else — no JSON object, or neither field — is a malformed
/// reply. The parser fails closed; it never guesses.
pub open spec fn spec_interpret(f: Option<ReplyFields>) -> Result<
    ScrapeResultModel,
    BackendError,
> {
    match f {
        Option::None => Result::Err(BackendError::MalformedResponse),
        Option::Some(rf) => match rf.content {
            Option::Some(c) => Result::Ok(
                ScrapeResultModel::Success { content: c, charset: rf.charset },
            ),
            Option::None => match rf.error {
                Option::Some(m) => Result::Ok(ScrapeResultModel::Failure { message: m }),
                Option::None => Result::Err(BackendError::MalformedResponse),
            },
        },
    }
}

/// Enforces the reply's shape, exactly as `spec_interpret` says.
pub fn interpret_reply(raw: Option<RawReply>) -> (r: Result<ScrapeResult, BackendError>)
    ensures
        outcome_view(r) == spec_interpret(
            match raw {
                Option::Some(rr) => Option::Some(rr@),
                Option::None => Option::<ReplyFields>::None,
            },
        ),
{
    match raw {
        Option::None => Result::Err(BackendError::MalformedResponse),
        Option::Some(rr) => match rr.content {
            Option::Some(c) => Result::Ok(
                ScrapeResult::Success { content: c, charset: rr.charset },
            ),
            Option::None => match rr.error {
                Option::Some(m) => Result::Ok(ScrapeResult::Failure { message: m }),
                Option::None => Result::Err(BackendError::MalformedResponse),
            },
        },
    }
}

/// Law: a reply that is no JSON object, or carries neither a `content` nor
/// an `error` field, is exactly a malformed reply — never a guess, never a
/// fault.
pub proof fn lemma_malformed_reply_fails_closed(f: Option<ReplyFields>)
    requires
        match f {
            Option::None => true,
            Option::Some(rf) => rf.content is None && rf.error is None,
        },
    ensures
        spec_interpret(f) == Result::<ScrapeResultModel, _>::Err(BackendError::MalformedResponse),
{
}

/// The percent-encoding of `s`: every byte of its UTF-8 form but
/// alphanumerics and `-`, `_`, `.`, `~` written as a `%` escape.
pub uninterp spec fn urlencoded_of(s: Seq<char>) -> Seq<char>;

/// Relies on `urlencoding::encode`: percent-encodes every byte except
/// alphanumerics and `-`, `_`, `.`, `~`; an empty input stays empty.
#[verifier::external_body]
pub fn encode_url_component(s: &str) -> (r: String)
    ensures
        r@ == urlencoded_of(s@),
        s@.len() == 0 ==> r@.len() == 0,
{
    urlencoding::encode(s).into_owned()
}

/// The one request the text-framed exchange writes: a request line
/// addressing the percent-encoded URL, the two fixed header lines, and the
/// blank line that ends the head. The exchange sends nothing else.
pub open spec fn spec_text_request(url: Seq<char>) -> Seq<char> {
    "GET /scrape/"@ + urlencoded_of(url)
        + " HTTP/1.1\r\nHost: localhost:3000\r\nConnection: close\r\n\r\n"@
}

/// Frames the text-variant request for a validated target.
pub fn build_text_request(req: &ScrapeRequest) -> (r: String)
    ensures
        r@ == spec_text_request(req.url@),
{
    let mut out = String::from_str("GET /scrape/");
    let enc = encode_url_component(req.url.as_str());
    out.append(enc.as_str());
    out.append(" HTTP/1.1\r\nHost: localhost:3000\r\nConnection: close\r\n\r\n");
    proof {
        assert(out@ =~= spec_text_request(req.url@));
    }
    out
}

/// A blank line (the head/body boundary) starts at `i`.
pub open spec fn is_blank_line_at(s: Seq<char>, i: int) -> bool {
    0 <= i && i + 4 <= s.len() && s[i] == '\r' && s[i + 1] == '\n' && s[i + 2] == '\r'
        && s[i + 3] == '\n'
}

/// The first head/body boundary at or after `i`, if any.
pub open spec fn spec_find_blank_line(s: Seq<char>, i: int) -> Option<int>
    decreases s.len() - i,
{
    if i < 0 || i + 4 > s.len() {
        Option::None
    } else if is_blank_line_at(s, i) {
        Option::Some(i)
    } else {
        spec_find_blank_line(s, i + 1)
    }
}

/// Locates the first head/body boundary of a text-framed reply.
pub fn find_blank_line(s: &str) -> (r: Option<usize>)
    ensures
        match r {
            Option::Some(i) => spec_find_blank_line(s@, 0) == Option::Some(i as int)
                && is_blank_line_at(s@, i as int),
            Option::None => spec_find_blank_line(s@, 0) is None,
        },
{
    let n = s.unicode_len();
    if n < 4 {
        return Option::None;
    }
    let mut i: usize = 0;
    while i <= n - 4
        invariant
            n == s@.len(),
            4 <= n,
            i <= n,
            spec_find_blank_line(s@, 0) == spec_find_blank_line(s@, i as int),
        decreases n - i,
    {
        if s.get_char(i) == '\r' && s.get_char(i + 1) == '\n' && s.get_char(i + 2) == '\r'
            && s.get_char(i + 3) == '\n' {
            return Option::Some(i);
        }
        i += 1;
    }
    Option::None
}

/// What the text-framed exchange yields for the full reply text `s`: no
/// boundary is a malformed reply; otherwise the body after the boundary,
/// read and enforced as `spec_interpret` says.
pub open spec fn spec_text_reply(s: Seq<char>) -> Result<ScrapeResultModel, BackendError> {
    match spec_find_blank_line(s, 0) {
        Option::None => Result::Err(BackendError::MalformedResponse),
        Option::Some(i) => spec_interpret(reply_fields_of(s.subrange(i + 4, s.len() as int))),
    }
}

/// Interprets a complete text-framed reply: locates the head/body
/// boundary, reads the body's fields, and enforces the reply's shape.
pub fn parse_text_reply(s: &str) -> (r: Result<ScrapeResult, BackendError>)
    ensures
        outcome_view(r) == spec_text_reply(s@),
{
    match find_blank_line(s) {
        Option::None => Result::Err(BackendError::MalformedResponse),
        Option::Some(i) => {
            let n = s.unicode_len();
            let body = s.substring_char(i + 4, n);
            let fields = decode_reply_json(body);
            interpret_reply(fields)
        },
    }
}

/// The one message the message-framed exchange sends: a JSON object whose
/// single field names the target URL.
pub open spec fn spec_ws_message(url: Seq<char>) -> Seq<char> {
    "{\"url\":\""@ + spec_json_escape(url) + "\"}"@
}

/// Frames the message-variant request for a validated target.
pub fn build_ws_message(req: &ScrapeRequest) -> (r: String)
    ensures
        r@ == spec_ws_message(req.url@),
{
    let mut out = String::from_str("{\"url\":\"");
    let esc = json_escape(req.url.as_str());
    out.append(esc.as_str());
    out.append("\"}");
    proof {
        assert(out@ =~= spec_ws_message(req.url@));
    }
    out
}

/// What the message-framed exchange observed: exactly one reply is awaited,
/// and everything that is not one text message is a failure.
pub enum WsEvent {
    /// One text message arrived.
    Text(String),
    /// A message arrived, but not a text message.
    NonText,
    /// Reading the reply failed.
    TransportError,
    /// The channel ended before any reply.
    Closed,
}

/// The mathematical shape of a message-framed event.
#[verifier::ext_equal]
pub enum WsEventModel {
    Text(Seq<char>),
    NonText,
    TransportError,
    Closed,
}

impl View for WsEvent {
    type V = WsEventModel;

    open spec fn view(&self) -> WsEventModel {
        match self {
            WsEvent::Text(t) => WsEventModel::Text(t@),
            WsEvent::NonText => WsEventModel::NonText,
            WsEvent::TransportError => WsEventModel::TransportError,
            WsEvent::Closed => WsEventModel::Closed,
        }
    }
}

/// What the message-framed exchange yields for each possible event: a text
/// message is read and enforced like any reply body; every other event is
/// the corresponding typed failure.
pub open spec fn spec_ws_reply(ev: WsEventModel) -> Result<ScrapeResultModel, BackendError> {
    match ev {
        WsEventModel::Text(t) => spec_interpret(reply_fields_of(t)),
        WsEventModel::NonText => Result::Err(BackendError::MalformedResponse),
        WsEventModel::TransportError => Result::Err(BackendError::IoFailed),
        WsEventModel::Closed => Result::Err(BackendError::IoFailed),
    }
}

/// Interprets the one event the message-framed exchange observed.
pub fn interpret_ws_event(ev: WsEvent) -> (r: Result<ScrapeResult, BackendError>)
    ensures
        outcome_view(r) == spec_ws_reply(ev@),
{
    match ev {
        WsEvent::Text(t) => {
            let fields = decode_reply_json(t.as_str());
            interpret_reply(fields)
        },
        WsEvent::NonText => Result::Err(BackendError::MalformedResponse),
        WsEvent::TransportError => Result::Err(BackendError::IoFailed),
        WsEvent::Closed => Result::Err(BackendError::IoFailed),
    }
}

} // verus!
