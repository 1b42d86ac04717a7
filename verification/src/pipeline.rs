//! The transform pipeline, end to end. One request runs through it once:
//! resolve the parameters, have the origin image fetched, decode, resize,
//! encode, answer. A stage that fails ends the request with its error.
//!
//! The fetch is the caller's to make. `begin` says whether to make it and
//! for which request; `finish` takes what came of it and gives the answer.

use vstd::prelude::*;
use crate::decode::{decode, decoding};
use crate::encode::{encode, encoded, recordable, EncodedOutput};
use crate::error::{Param, PipelineError};
use crate::format::OutputFormat;
use crate::origin::{classify, is_success, FetchOutcome};
use crate::params::{resolution, resolve, RequestView, TransformRequest};
use crate::resize::{
    buffers_fit, fits, lemma_target_height_within_one_pixel, resize, resized, target_height,
    within_limits,
};
use crate::response::{delivers, error_response, reports, respond, HttpResponse};
use crate::text::{optional_text, same_text};
use crate::urls::query_pairs;

verus! {

/// What is to be done next for a request.
#[derive(Debug)]
pub enum Step {
    /// Fetch the source of this request from its origin, then `finish`.
    Fetch(TransformRequest),
    /// Send this response; the request is over.
    Reply(HttpResponse),
}

/// The one method that the endpoint serves.
pub open spec fn is_get(method: Seq<char>) -> bool {
    method == "GET"@
}

/// Refuses every method but `GET`.
pub fn check_method(method: &str) -> (r: Result<(), PipelineError>)
    ensures
        is_get(method@) ==> r is Ok,
        !is_get(method@) ==> (r matches Err(e) && e == PipelineError::MethodNotAllowed
            && e.spec_status() == 405),
{
    if same_text(method, "GET") {
        Ok(())
    } else {
        Err(PipelineError::MethodNotAllowed)
    }
}

/// What the pipeline may make of fetched bytes for a request: the image
/// they hold, resized to the width asked for, in the request's format and at
/// its quality. Bytes that hold no image fail with `DecodeFailed`. A width
/// fails as an invalid `w` where it would enlarge this image beyond
/// `MAX_UPSCALED_PIXELS`, or where the machine cannot hold the buffers.
pub open spec fn transformed(
    request: RequestView,
    raw: Seq<u8>,
    r: Result<EncodedOutput, PipelineError>,
) -> bool {
    match decoding(raw) {
        None => r matches Err(e) && e is DecodeFailed,
        Some(source) => if within_limits(source.width, source.height, request.target_width) {
            encoded(
                resized(source, request.target_width),
                request.format(),
                request.quality as u8,
                r,
            )
        } else {
            r matches Err(e) && e == PipelineError::InvalidParameter(Param::Width)
        },
    }
}

/// Runs the stages that follow the fetch: decode, resize, encode.
pub fn transform(request: &TransformRequest, raw: &[u8]) -> (r: Result<
    EncodedOutput,
    PipelineError,
>)
    ensures
        transformed(request@, raw@, r),
{
    let source = match decode(raw) {
        Ok(image) => image,
        Err(error) => {
            return Err(error);
        },
    };
    let target_width = request.target_width();
    if !fits(&source, target_width) {
        return Err(PipelineError::InvalidParameter(Param::Width));
    }
    let scaled = resize(&source, target_width);
    encode(&scaled, request.format(), request.quality())
}

/// Starts a request: checks its method and resolves its parameters. A
/// request that passes both is to be fetched; any other is answered at once
/// with its error.
pub fn begin(method: &str, query: &str, accept: Option<&str>) -> (step: Step)
    ensures
        !is_get(method@) ==> (step matches Step::Reply(response) && reports(
            response,
            PipelineError::MethodNotAllowed,
        ) && response.status == 405),
        is_get(method@) ==> match resolution(query_pairs(query@), optional_text(accept)) {
            Ok(view) => step matches Step::Fetch(request) && request@ == view && view.wf(),
            Err(error) => step matches Step::Reply(response) && reports(response, error)
                && response.status == 400,
        },
{
    match check_method(method) {
        Ok(()) => {},
        Err(error) => {
            return Step::Reply(error_response(&error));
        },
    }
    match resolve(query, accept) {
        Ok(request) => Step::Fetch(request),
        Err(error) => Step::Reply(error_response(&error)),
    }
}

/// What the answer to a fetched request may be.
pub open spec fn answered(request: RequestView, outcome: FetchOutcome, response: HttpResponse) -> bool {
    match outcome {
        FetchOutcome::Unreachable => reports(response, PipelineError::OriginUnreachable),
        FetchOutcome::Responded { status, body } => if is_success(status) {
            exists|r: Result<EncodedOutput, PipelineError>|
                #![trigger transformed(request, body@, r)]
                transformed(request, body@, r) && match r {
                    Ok(output) => delivers(response, output),
                    Err(error) => reports(response, error),
                }
        } else {
            reports(response, PipelineError::OriginFetchFailed(status))
        },
    }
}

/// Ends a request: judges what came of the fetch, transforms the image, and
/// builds the answer. Every outcome gives a response.
pub fn finish(request: &TransformRequest, outcome: FetchOutcome) -> (response: HttpResponse)
    ensures
        answered(request@, outcome, response),
{
    let ghost fetched = outcome;
    let result = match classify(outcome) {
        Ok(raw) => transform(request, raw.as_slice()),
        Err(error) => Err(error),
    };
    let ghost witness = result;
    let response = respond(result);
    proof {
        match fetched {
            FetchOutcome::Responded { status, body } => {
                if is_success(status) {
                    assert(transformed(request@, body@, witness));
                }
            },
            FetchOutcome::Unreachable => {},
        }
    }
    response
}

/// A transformed image is exactly as wide as was asked for, and its height
/// keeps the proportions of the source to within one pixel.
pub proof fn lemma_transform_keeps_proportions(
    request: RequestView,
    raw: Seq<u8>,
    r: Result<EncodedOutput, PipelineError>,
)
    requires
        transformed(request, raw, r),
        r is Ok,
    ensures
        ({
            let output = r->Ok_0;
            &&& decoding(raw) matches Some(source)
            &&& output.width == request.target_width
            &&& output.height == target_height(source.width, source.height, request.target_width)
            &&& (output.height - 1) * source.width <= source.height * output.width
            &&& source.height * output.width <= (output.height + 1) * source.width
        }),
{
    let source = decoding(raw)->Some_0;
    lemma_target_height_within_one_pixel(source.width, source.height, request.target_width);
}

/// A width that does not enlarge the image is never refused for the size of
/// the image: where the machine can hold the buffers, the request gets as
/// far as the encoder, and only the encoder can fail it. As JPEG and as WebP
/// it succeeds exactly where the format can record the resized image.
pub proof fn lemma_narrower_width_is_served(
    request: RequestView,
    raw: Seq<u8>,
    r: Result<EncodedOutput, PipelineError>,
)
    requires
        transformed(request, raw, r),
        decoding(raw) matches Some(source) && 1 <= request.target_width <= source.width
            && buffers_fit(
            source.width,
            source.height,
            request.target_width,
            target_height(source.width, source.height, request.target_width),
        ),
    ensures
        r matches Err(error) ==> error is EncodeFailed,
        r matches Ok(output) ==> output.width == request.target_width,
        request.format() != OutputFormat::Avif ==> (r is Ok <==> recordable(
            request.format(),
            request.target_width,
            target_height(
                decoding(raw)->Some_0.width,
                decoding(raw)->Some_0.height,
                request.target_width,
            ),
        )),
{
}

/// Bytes in which no image is found are a bad request, whatever else the
/// request says.
pub proof fn lemma_undecodable_bytes_are_refused(
    request: RequestView,
    raw: Seq<u8>,
    r: Result<EncodedOutput, PipelineError>,
)
    requires
        transformed(request, raw, r),
        decoding(raw) is None,
    ensures
        r matches Err(error) && error is DecodeFailed && error.spec_status() == 400,
{
}

/// Transforming the same bytes for the same request twice ends alike in
/// everything that the library decides. A run that fails before the encoder
/// is reached fails the same way the second time. Where both runs succeed
/// they give the same format and the same dimensions, and where both fail
/// they give the same kind of error. For JPEG and WebP the encoder repeats
/// itself too: both runs succeed or neither, and the files are the same. The
/// AVIF encoder is not known to repeat itself: its file may differ from run
/// to run, and so may its success.
pub proof fn lemma_transform_is_repeatable(
    request: RequestView,
    raw: Seq<u8>,
    first: Result<EncodedOutput, PipelineError>,
    second: Result<EncodedOutput, PipelineError>,
)
    requires
        transformed(request, raw, first),
        transformed(request, raw, second),
    ensures
        first matches Err(e) ==> (e is DecodeFailed ==> (second matches Err(f)
            && f is DecodeFailed)),
        first matches Err(e) ==> (e is InvalidParameter ==> (second matches Err(f) && f == e)),
        first matches Ok(a) ==> (second matches Ok(b) ==> a.format == b.format && a.width
            == b.width && a.height == b.height),
        first matches Err(e) ==> (second matches Err(f) ==> e.spec_status() == f.spec_status()),
        request.format() != OutputFormat::Avif ==> (first is Ok <==> second is Ok),
        request.format() != OutputFormat::Avif ==> (first matches Ok(a) ==> (second matches Ok(b)
            ==> a.bytes@ == b.bytes@)),
{
}

} // verus!
