//! The response encoder: optionally compresses the page content and sets
//! the response's status and headers. The content-encoding marker is set
//! exactly when compression was applied, and a client that reverses the
//! compression gets back exactly the content the backend sent.

use vstd::prelude::*;
use crate::errors::GatewayError;
use crate::response::{OutgoingResponse, ResponseModel, ResponseBody, BodyModel};
use brotlic::{BlockSize, BrotliEncoderOptions, CompressorWriter, Quality, WindowSize};
use std::io::Write;

verus! {

/// The compressed form of the text `content` under the encoder's fixed
/// parameters (quality 6, window 22, block 24).
pub uninterp spec fn brotli_of(content: Seq<char>) -> Seq<u8>;

/// The text that decompressing `b` and reading the result as UTF-8 yields,
/// if `b` decompresses at all.
pub uninterp spec fn brotli_decoded(b: Seq<u8>) -> Option<Seq<char>>;

/// Relies on `brotlic`'s `CompressorWriter` with fixed quality 6, window
/// size 22 and block size 24: the compressed bytes are a function of the
/// text alone, and — brotli being lossless — decompressing them yields
/// exactly that text back.
#[verifier::external_body]
fn brotli_compress(content: &str) -> (r: Option<Vec<u8>>)
    ensures
        r matches Some(v) ==> v@ == brotli_of(content@)
            && brotli_decoded(v@) == Some(content@),
{
    let encoder = BrotliEncoderOptions::new()
        .quality(Quality::new(6).ok()?)
        .window_size(WindowSize::new(22).ok()?)
        .block_size(BlockSize::new(24).ok()?)
        .build().ok()?;
    let mut writer = CompressorWriter::with_encoder(encoder, Vec::new());
    writer.write_all(content.as_bytes()).ok()?;
    writer.into_inner().ok()
}

/// An `Option<String>` seen mathematically.
pub open spec fn opt_text(o: Option<String>) -> Option<Seq<char>> {
    match o {
        Option::Some(s) => Option::Some(s@),
        Option::None => Option::None,
    }
}

/// The charset the response declares: the one the backend reported, or
/// `utf-8` when it reported none.
pub open spec fn spec_charset_or_default(charset: Option<Seq<char>>) -> Seq<char> {
    match charset {
        Option::Some(c) => c,
        Option::None => "utf-8"@,
    }
}

/// The content-type header of a successful response: an HTML media type
/// with the declared charset.
pub open spec fn spec_html_content_type(charset: Option<Seq<char>>) -> Seq<char> {
    "text/html; charset="@ + spec_charset_or_default(charset)
}

/// A successful response sent uncompressed: the body is exactly the
/// content, and no content-encoding marker is set.
pub open spec fn spec_success_plain(
    content: Seq<char>,
    charset: Option<Seq<char>>,
) -> ResponseModel {
    ResponseModel {
        status: 200u16,
        content_type: spec_html_content_type(charset),
        content_encoding: Option::None,
        body: BodyModel::Text(content),
    }
}

/// A successful response sent compressed: the body is the content's
/// compressed form and the content-encoding marker says so.
pub open spec fn spec_success_compressed(
    content: Seq<char>,
    charset: Option<Seq<char>>,
) -> ResponseModel {
    ResponseModel {
        status: 200u16,
        content_type: spec_html_content_type(charset),
        content_encoding: Option::Some("br"@),
        body: BodyModel::Bytes(brotli_of(content)),
    }
}

/// Builds the content-type header for a successful response.
fn html_content_type(charset: &Option<String>) -> (r: String)
    ensures
        r@ == spec_html_content_type(opt_text(*charset)),
{
    let mut ct = String::from_str("text/html; charset=");
    match charset {
        Option::Some(c) => ct.append(c.as_str()),
        Option::None => ct.append("utf-8"),
    }
    ct
}

/// Encodes a successful backend result: metadata first, the body as the
/// content itself or its compressed form. With compression off this never
/// fails; with it on, the only failure is `CompressionFailed`, and a
/// compressed body always decompresses back to exactly the content.
pub fn encode_success(content: String, charset: Option<String>, compress: bool) -> (r: Result<
    OutgoingResponse,
    GatewayError,
>)
    ensures
        match r {
            Result::Ok(resp) => if compress {
                resp@ == spec_success_compressed(content@, opt_text(charset))
                    && brotli_decoded(brotli_of(content@)) == Some(content@)
            } else {
                resp@ == spec_success_plain(content@, opt_text(charset))
            },
            Result::Err(e) => e == GatewayError::CompressionFailed && compress,
        },
        !compress ==> r is Ok,
{
    let ghost c0 = content@;
    let ct = html_content_type(&charset);
    if compress {
        match brotli_compress(content.as_str()) {
            Option::Some(v) => {
                let resp = OutgoingResponse {
                    status: 200,
                    content_type: ct,
                    content_encoding: Option::Some(String::from_str("br")),
                    body: ResponseBody::Bytes(v),
                };
                proof {
                    assert(resp@ =~= spec_success_compressed(content@, opt_text(charset)));
                }
                Result::Ok(resp)
            },
            Option::None => Result::Err(GatewayError::CompressionFailed),
        }
    } else {
        let resp = OutgoingResponse {
            status: 200,
            content_type: ct,
            content_encoding: Option::None,
            body: ResponseBody::Text(content),
        };
        proof {
            assert(resp@ =~= spec_success_plain(c0, opt_text(charset)));
        }
        Result::Ok(resp)
    }
}

} // verus!
