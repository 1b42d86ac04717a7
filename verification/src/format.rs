//! Output formats and their negotiation against a request's `Accept` header.

use vstd::prelude::*;
use crate::text::{contains, mentions, optional_text};

verus! {

/// An encoding that a transformed image can be delivered in.
#[derive(Clone, Copy, Debug, PartialEq, Eq, Structural)]
pub enum OutputFormat {
    Jpeg,
    WebP,
    Avif,
}

impl OutputFormat {
    /// The media type that a response in this format declares.
    pub open spec fn media_type(self) -> Seq<char> {
        match self {
            OutputFormat::Jpeg => "image/jpeg"@,
            OutputFormat::WebP => "image/webp"@,
            OutputFormat::Avif => "image/avif"@,
        }
    }

    /// The media type that a response in this format declares.
    pub fn mime(self) -> (m: &'static str)
        ensures
            m@ == self.media_type(),
    {
        match self {
            OutputFormat::Jpeg => "image/jpeg",
            OutputFormat::WebP => "image/webp",
            OutputFormat::Avif => "image/avif",
        }
    }

    /// Place in the order of preference: the smaller, the more the format
    /// saves on the wire.
    pub open spec fn rank(self) -> nat {
        match self {
            OutputFormat::Avif => 0,
            OutputFormat::WebP => 1,
            OutputFormat::Jpeg => 2,
        }
    }
}

/// The `Accept` header advertises `format`. The header is searched for the
/// media type as it is written; quality factors and wildcards carry no weight.
pub open spec fn advertises(accept: Option<Seq<char>>, format: OutputFormat) -> bool {
    match accept {
        Some(value) => mentions(value, format.media_type()),
        None => false,
    }
}

/// The format chosen for a request: the most compact one that the client
/// advertises, and JPEG where it advertises none.
pub open spec fn negotiated(accept: Option<Seq<char>>) -> OutputFormat {
    if advertises(accept, OutputFormat::Avif) {
        OutputFormat::Avif
    } else if advertises(accept, OutputFormat::WebP) {
        OutputFormat::WebP
    } else {
        OutputFormat::Jpeg
    }
}

/// The formats a request can be answered in, best first. JPEG is always
/// among them, and last.
pub open spec fn accepted(accept: Option<Seq<char>>) -> Seq<OutputFormat> {
    let avif: Seq<OutputFormat> = if advertises(accept, OutputFormat::Avif) {
        seq![OutputFormat::Avif]
    } else {
        seq![]
    };
    let webp: Seq<OutputFormat> = if advertises(accept, OutputFormat::WebP) {
        seq![OutputFormat::WebP]
    } else {
        seq![]
    };
    avif + webp + seq![OutputFormat::Jpeg]
}

/// A list of formats that is not empty and runs from the most to the least
/// preferred, so that no format stands in it twice.
pub open spec fn is_preference_list(formats: Seq<OutputFormat>) -> bool {
    &&& formats.len() >= 1
    &&& forall|i: int, j: int|
        0 <= i < j < formats.len() ==> (#[trigger] formats[i]).rank() < (#[trigger] formats[j]).rank()
}

fn is_advertised(accept: Option<&str>, format: OutputFormat) -> (r: bool)
    ensures
        r == advertises(optional_text(accept), format),
{
    match accept {
        Some(value) => contains(value, format.mime()),
        None => false,
    }
}

/// Chooses the output format for a request from its `Accept` header.
pub fn negotiate(accept: Option<&str>) -> (format: OutputFormat)
    ensures
        format == negotiated(optional_text(accept)),
{
    if is_advertised(accept, OutputFormat::Avif) {
        OutputFormat::Avif
    } else if is_advertised(accept, OutputFormat::WebP) {
        OutputFormat::WebP
    } else {
        OutputFormat::Jpeg
    }
}

/// Lists the formats a request can be answered in, best first.
pub fn accepted_formats(accept: Option<&str>) -> (formats: Vec<OutputFormat>)
    ensures
        formats@ == accepted(optional_text(accept)),
        is_preference_list(formats@),
        formats@[0] == negotiated(optional_text(accept)),
{
    let mut formats: Vec<OutputFormat> = Vec::new();
    if is_advertised(accept, OutputFormat::Avif) {
        formats.push(OutputFormat::Avif);
    }
    if is_advertised(accept, OutputFormat::WebP) {
        formats.push(OutputFormat::WebP);
    }
    formats.push(OutputFormat::Jpeg);
    formats
}

/// The format that negotiation chooses is the first of the accepted ones,
/// and the accepted ones are a preference list.
pub proof fn lemma_negotiated_is_first_accepted(accept: Option<Seq<char>>)
    ensures
        is_preference_list(accepted(accept)),
        accepted(accept)[0] == negotiated(accept),
{
}

} // verus!
