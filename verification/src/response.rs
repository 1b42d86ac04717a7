//! The response assembler: wraps an encoded image, or a failure, into what
//! is sent back.

use vstd::prelude::*;
use vstd::utf8::encode_utf8;
use crate::encode::EncodedOutput;
use crate::error::PipelineError;
use crate::format::OutputFormat;

verus! {

/// The status of a response that carries an image.
pub const STATUS_OK: u16 = 200;

/// An outbound HTTP response: status, headers in the order in which they are
/// to be set, and body.
#[derive(Debug)]
pub struct HttpResponse {
    pub status: u16,
    pub headers: Vec<(String, String)>,
    pub body: Vec<u8>,
}

/// The headers of a response that carries an image in `format`. The image
/// may be cached for a month, 2629746 seconds: this service keeps nothing
/// itself.
pub open spec fn image_headers(format: OutputFormat) -> Seq<(Seq<char>, Seq<char>)> {
    seq![
        ("Content-Type"@, format.media_type()),
        ("Cache-Control"@, "max-age=2629746"@),
        ("Access-Control-Allow-Headers"@, "Content-Type"@),
    ]
}

/// The headers of a response that reports a failure.
pub open spec fn error_headers() -> Seq<(Seq<char>, Seq<char>)> {
    seq![("Content-Type"@, "text/plain; charset=utf-8"@)]
}

/// `response` delivers `output`: status 200, the image headers of its
/// format, and the file as the body.
pub open spec fn delivers(response: HttpResponse, output: EncodedOutput) -> bool {
    &&& response.status == STATUS_OK
    &&& response.headers.deep_view() == image_headers(output.format)
    &&& response.body@ == output.bytes@
}

/// `response` reports `error`: the status of its kind, and its message as
/// the body, in UTF-8.
pub open spec fn reports(response: HttpResponse, error: PipelineError) -> bool {
    &&& response.status == error.spec_status()
    &&& response.headers.deep_view() == error_headers()
    &&& response.body@ == encode_utf8(error.spec_message())
}

fn header(name: &str, value: &str) -> (pair: (String, String))
    ensures
        pair.deep_view() == (name@, value@),
{
    (name.to_owned(), value.to_owned())
}

/// Builds the response that delivers an encoded image.
pub fn assemble(output: EncodedOutput) -> (response: HttpResponse)
    ensures
        delivers(response, output),
{
    let mut headers: Vec<(String, String)> = Vec::new();
    headers.push(header("Content-Type", output.format.mime()));
    headers.push(header("Cache-Control", "max-age=2629746"));
    headers.push(header("Access-Control-Allow-Headers", "Content-Type"));
    proof {
        assert(headers.deep_view() =~= image_headers(output.format));
    }
    HttpResponse { status: STATUS_OK, headers, body: output.bytes }
}

/// Builds the response that reports a failure.
pub fn error_response(error: &PipelineError) -> (response: HttpResponse)
    ensures
        reports(response, *error),
        400 <= response.status <= 599,
{
    let mut headers: Vec<(String, String)> = Vec::new();
    headers.push(header("Content-Type", "text/plain; charset=utf-8"));
    proof {
        assert(headers.deep_view() =~= error_headers());
    }
    let message = error.message();
    HttpResponse { status: error.status(), headers, body: message.as_str().as_bytes_vec() }
}

/// Builds the response for what the pipeline ended with.
pub fn respond(result: Result<EncodedOutput, PipelineError>) -> (response: HttpResponse)
    ensures
        match result {
            Ok(output) => delivers(response, output),
            Err(error) => reports(response, error),
        },
{
    match result {
        Ok(output) => assemble(output),
        Err(error) => error_response(&error),
    }
}

} // verus!
