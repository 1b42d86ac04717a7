//! The parameter resolver: from a query string and an `Accept` header to a
//! validated transform request.

use vstd::prelude::*;
use crate::error::{Param, PipelineError};
use crate::format::{
    accepted, accepted_formats, is_preference_list, lemma_negotiated_is_first_accepted,
    OutputFormat,
};
use crate::text::{decimal_value, optional_text, parse_u32, parsed_u32};
use crate::urls::{is_absolute_url, parse_query, parses_as_url, query_pairs};

verus! {

/// The quality that a request without `q` is served at.
pub const DEFAULT_QUALITY: u8 = 80;

/// The best quality that can be asked for.
pub const MAX_QUALITY: u8 = 100;

/// What a transform request says.
pub struct RequestView {
    pub source_url: Seq<char>,
    pub target_width: nat,
    pub quality: nat,
    pub accepted_formats: Seq<OutputFormat>,
}

impl RequestView {
    /// A request asks for a positive width, for a quality from 1 to
    /// `MAX_QUALITY`, and names at least one format.
    pub open spec fn wf(self) -> bool {
        &&& 1 <= self.target_width <= u32::MAX
        &&& 1 <= self.quality <= MAX_QUALITY
        &&& is_preference_list(self.accepted_formats)
    }

    /// The format the request is answered in.
    pub open spec fn format(self) -> OutputFormat {
        self.accepted_formats[0]
    }
}

/// A validated transform request.
#[derive(Debug)]
pub struct TransformRequest {
    source_url: String,
    target_width: u32,
    quality: u8,
    accepted_formats: Vec<OutputFormat>,
}

impl View for TransformRequest {
    type V = RequestView;

    closed spec fn view(&self) -> RequestView {
        RequestView {
            source_url: self.source_url@,
            target_width: self.target_width as nat,
            quality: self.quality as nat,
            accepted_formats: self.accepted_formats@,
        }
    }
}

impl TransformRequest {
    #[verifier::type_invariant]
    spec fn valid(&self) -> bool {
        self@.wf()
    }

    /// Builds a request from its parts; `None` where the width is zero or the
    /// quality lies outside 1..=`MAX_QUALITY`. The source is taken as it is:
    /// whether it is an absolute URL is the resolver's to check.
    pub fn new(source_url: String, target_width: u32, quality: u8, accept: Option<&str>) -> (r:
        Option<TransformRequest>)
        ensures
            r is Some <==> target_width >= 1 && 1 <= quality <= MAX_QUALITY,
            r matches Some(request) ==> request@.wf() && request@ == (RequestView {
                source_url: source_url@,
                target_width: target_width as nat,
                quality: quality as nat,
                accepted_formats: accepted(optional_text(accept)),
            }),
    {
        if target_width >= 1 && 1 <= quality && quality <= MAX_QUALITY {
            Some(
                TransformRequest {
                    source_url,
                    target_width,
                    quality,
                    accepted_formats: accepted_formats(accept),
                },
            )
        } else {
            None
        }
    }

    /// The address of the origin image.
    pub fn source_url(&self) -> (url: &str)
        ensures
            url@ == self@.source_url,
            self@.wf(),
    {
        proof {
            use_type_invariant(self);
        }
        self.source_url.as_str()
    }

    /// The width asked for, in pixels.
    pub fn target_width(&self) -> (width: u32)
        ensures
            width == self@.target_width,
            self@.wf(),
    {
        proof {
            use_type_invariant(self);
        }
        self.target_width
    }

    /// The encoding quality asked for.
    pub fn quality(&self) -> (quality: u8)
        ensures
            quality == self@.quality,
            self@.wf(),
    {
        proof {
            use_type_invariant(self);
        }
        self.quality
    }

    /// The format the request is answered in: the first of the accepted ones.
    pub fn format(&self) -> (format: OutputFormat)
        ensures
            format == self@.format(),
            self@.wf(),
    {
        proof {
            use_type_invariant(self);
        }
        self.accepted_formats[0]
    }

    /// The formats the request can be answered in, best first.
    pub fn accepted_formats(&self) -> (formats: &Vec<OutputFormat>)
        ensures
            formats@ == self@.accepted_formats,
            self@.wf(),
    {
        proof {
            use_type_invariant(self);
        }
        &self.accepted_formats
    }
}

/// The value that a query gives to `key`. Where a key stands more than once
/// the last occurrence counts.
pub open spec fn last_value(pairs: Seq<(Seq<char>, Seq<char>)>, key: Seq<char>) -> Option<
    Seq<char>,
>
    decreases pairs.len(),
{
    if pairs.len() == 0 {
        None
    } else if pairs.last().0 == key {
        Some(pairs.last().1)
    } else {
        last_value(pairs.drop_last(), key)
    }
}

/// Looks `key` up among the pairs of a query.
pub fn lookup<'a>(pairs: &'a Vec<(String, String)>, key: &str) -> (value: Option<&'a String>)
    ensures
        match value {
            Some(text) => last_value(pairs.deep_view(), key@) == Some(text@),
            None => last_value(pairs.deep_view(), key@) is None,
        },
{
    let wanted = key.to_owned();
    let ghost all = pairs.deep_view();
    let mut i: usize = pairs.len();
    assert(all.take(i as int) =~= all);
    while i > 0
        invariant
            i <= pairs.len(),
            wanted@ == key@,
            all == pairs.deep_view(),
            last_value(all, key@) == last_value(all.take(i as int), key@),
        decreases i,
    {
        i -= 1;
        proof {
            assert(all.take(i + 1).drop_last() =~= all.take(i as int));
        }
        if pairs[i].0 == wanted {
            return Some(&pairs[i].1);
        }
    }
    None
}

/// The width that the text of `w` asks for, where it asks for one: a
/// positive decimal number of at most 32 bits.
pub open spec fn width_of(text: Seq<char>) -> Option<u32> {
    match parsed_u32(text) {
        Some(n) => if n >= 1 {
            Some(n)
        } else {
            None
        },
        None => None,
    }
}

/// The quality that the text of `q` asks for, where it asks for one: a
/// decimal number from 1 to `MAX_QUALITY`. Numbers outside that range are
/// refused, not clamped.
pub open spec fn quality_of(text: Seq<char>) -> Option<u8> {
    match parsed_u32(text) {
        Some(n) => if 1 <= n <= MAX_QUALITY {
            Some(n as u8)
        } else {
            None
        },
        None => None,
    }
}

/// What the resolver makes of the texts of `src`, `w` and `q`, where each
/// was sent, and of an `Accept` header, given whether the text of `src` is
/// an absolute URL. The checks run in a fixed order, and the first that
/// fails names the error: `src` present, `w` present, `w` a positive number,
/// `q` absent or in range, `src` an absolute URL.
pub open spec fn field_resolution(
    source: Option<Seq<char>>,
    width: Option<Seq<char>>,
    quality: Option<Seq<char>>,
    accept: Option<Seq<char>>,
    source_is_absolute: bool,
) -> Result<RequestView, PipelineError> {
    match source {
        None => Err(PipelineError::MissingParameter(Param::Source)),
        Some(source_url) => match width {
            None => Err(PipelineError::MissingParameter(Param::Width)),
            Some(width_text) => match width_of(width_text) {
                None => Err(PipelineError::InvalidParameter(Param::Width)),
                Some(target_width) => {
                    let quality = match quality {
                        None => Some(DEFAULT_QUALITY),
                        Some(quality_text) => quality_of(quality_text),
                    };
                    match quality {
                        None => Err(PipelineError::InvalidParameter(Param::Quality)),
                        Some(quality) => if source_is_absolute {
                            Ok(
                                RequestView {
                                    source_url,
                                    target_width: target_width as nat,
                                    quality: quality as nat,
                                    accepted_formats: accepted(accept),
                                },
                            )
                        } else {
                            Err(PipelineError::InvalidParameter(Param::Source))
                        },
                    }
                },
            },
        },
    }
}

/// Whether a text was sent and is an absolute URL.
pub open spec fn is_absolute(source: Option<Seq<char>>) -> bool {
    match source {
        Some(text) => is_absolute_url(text),
        None => false,
    }
}

/// What the resolver makes of the pairs of a query and an `Accept` header:
/// `field_resolution` of the values that the query gives to `src`, `w` and
/// `q`.
pub open spec fn resolution(pairs: Seq<(Seq<char>, Seq<char>)>, accept: Option<Seq<char>>) -> Result<
    RequestView,
    PipelineError,
> {
    let source = last_value(pairs, Param::Source.key());
    field_resolution(
        source,
        last_value(pairs, Param::Width.key()),
        last_value(pairs, Param::Quality.key()),
        accept,
        is_absolute(source),
    )
}

/// `r` is what `expected` says: the request with that content, or that error.
pub open spec fn resolves_to(
    r: Result<TransformRequest, PipelineError>,
    expected: Result<RequestView, PipelineError>,
) -> bool {
    match r {
        Ok(request) => expected == Ok::<RequestView, PipelineError>(request@),
        Err(error) => expected == Err::<RequestView, PipelineError>(error),
    }
}

/// A `q` that is no decimal number from 1 to `MAX_QUALITY` is never served:
/// a number outside that range is refused, not clamped into it, and so is a
/// text that is no number. Where `src` and `w` pass their own checks, which
/// come first, the error names `q`.
pub proof fn lemma_unusable_quality_is_refused(
    source: Option<Seq<char>>,
    width: Option<Seq<char>>,
    quality: Seq<char>,
    accept: Option<Seq<char>>,
    source_is_absolute: bool,
)
    requires
        decimal_value(quality) matches Some(n) ==> !(1 <= n <= MAX_QUALITY),
    ensures
        field_resolution(source, width, Some(quality), accept, source_is_absolute) is Err,
        source is Some && (width matches Some(text) && width_of(text) is Some)
            ==> field_resolution(source, width, Some(quality), accept, source_is_absolute)
            == Err::<RequestView, PipelineError>(PipelineError::InvalidParameter(Param::Quality)),
{
}

/// Every resolved request is well formed: a positive width, a quality from
/// 1 to `MAX_QUALITY`, the default quality where none was sent, JPEG as the
/// format where no header was sent, and a source that is an absolute URL.
pub proof fn lemma_resolution_is_well_formed(
    source: Option<Seq<char>>,
    width: Option<Seq<char>>,
    quality: Option<Seq<char>>,
    accept: Option<Seq<char>>,
    source_is_absolute: bool,
)
    ensures
        field_resolution(source, width, quality, accept, source_is_absolute) matches Ok(request)
            ==> {
            &&& request.wf()
            &&& source_is_absolute
            &&& source == Some(request.source_url)
            &&& quality is None ==> request.quality == DEFAULT_QUALITY
            &&& accept is None ==> request.format() == OutputFormat::Jpeg
        },
{
    lemma_negotiated_is_first_accepted(accept);
}

fn parse_width(text: &str) -> (r: Option<u32>)
    ensures
        r == width_of(text@),
{
    match parse_u32(text) {
        Some(n) => if n >= 1 {
            Some(n)
        } else {
            None
        },
        None => None,
    }
}

fn parse_quality(text: &str) -> (r: Option<u8>)
    ensures
        r == quality_of(text@),
{
    match parse_u32(text) {
        Some(n) => if 1 <= n && n <= MAX_QUALITY as u32 {
            Some(n as u8)
        } else {
            None
        },
        None => None,
    }
}

/// Checks the texts of `src`, `w` and `q` and an `Accept` header, given the
/// answer to whether `src` is an absolute URL, and builds the request.
pub fn check_fields(
    source: Option<&str>,
    width: Option<&str>,
    quality: Option<&str>,
    accept: Option<&str>,
    source_is_absolute: bool,
) -> (r: Result<TransformRequest, PipelineError>)
    ensures
        resolves_to(
            r,
            field_resolution(
                optional_text(source),
                optional_text(width),
                optional_text(quality),
                optional_text(accept),
                source_is_absolute,
            ),
        ),
{
    let source_url = match source {
        Some(text) => text,
        None => return Err(PipelineError::MissingParameter(Param::Source)),
    };
    let width_text = match width {
        Some(text) => text,
        None => return Err(PipelineError::MissingParameter(Param::Width)),
    };
    let target_width = match parse_width(width_text) {
        Some(width) => width,
        None => return Err(PipelineError::InvalidParameter(Param::Width)),
    };
    let quality = match quality {
        Some(text) => match parse_quality(text) {
            Some(quality) => quality,
            None => return Err(PipelineError::InvalidParameter(Param::Quality)),
        },
        None => DEFAULT_QUALITY,
    };
    if !source_is_absolute {
        return Err(PipelineError::InvalidParameter(Param::Source));
    }
    Ok(
        TransformRequest {
            source_url: source_url.to_owned(),
            target_width,
            quality,
            accepted_formats: accepted_formats(accept),
        },
    )
}

/// Resolves a request from the texts of `src`, `w` and `q`, where each was
/// sent, and an `Accept` header.
pub fn resolve_fields(
    source: Option<&str>,
    width: Option<&str>,
    quality: Option<&str>,
    accept: Option<&str>,
) -> (r: Result<TransformRequest, PipelineError>)
    ensures
        resolves_to(
            r,
            field_resolution(
                optional_text(source),
                optional_text(width),
                optional_text(quality),
                optional_text(accept),
                is_absolute(optional_text(source)),
            ),
        ),
{
    let absolute = match source {
        Some(text) => parses_as_url(text),
        None => false,
    };
    check_fields(source, width, quality, accept, absolute)
}

fn text_of(value: Option<&String>) -> (text: Option<&str>)
    ensures
        match value {
            Some(s) => optional_text(text) == Some(s@),
            None => text is None,
        },
{
    match value {
        Some(s) => Some(s.as_str()),
        None => None,
    }
}

/// Resolves a request from the pairs of its query and its `Accept` header.
pub fn resolve_pairs(pairs: &Vec<(String, String)>, accept: Option<&str>) -> (r: Result<
    TransformRequest,
    PipelineError,
>)
    ensures
        resolves_to(r, resolution(pairs.deep_view(), optional_text(accept))),
{
    let source = text_of(lookup(pairs, Param::Source.name()));
    let width = text_of(lookup(pairs, Param::Width.name()));
    let quality = text_of(lookup(pairs, Param::Quality.name()));
    resolve_fields(source, width, quality, accept)
}

/// Resolves a request from its query string and its `Accept` header.
pub fn resolve(query: &str, accept: Option<&str>) -> (r: Result<TransformRequest, PipelineError>)
    ensures
        resolves_to(r, resolution(query_pairs(query@), optional_text(accept))),
{
    let pairs = parse_query(query);
    resolve_pairs(&pairs, accept)
}

} // verus!
