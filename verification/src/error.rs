//! The ways a request can fail, and the HTTP status each is answered with.

use vstd::prelude::*;

verus! {

/// A query parameter of the transform endpoint.
#[derive(Clone, Copy, Debug, PartialEq, Eq, Structural)]
pub enum Param {
    /// `src`: the address of the origin image.
    Source,
    /// `w`: the width asked for, in pixels.
    Width,
    /// `q`: the encoding quality.
    Quality,
}

impl Param {
    /// The parameter's key as it stands in a query string.
    pub open spec fn key(self) -> Seq<char> {
        match self {
            Param::Source => "src"@,
            Param::Width => "w"@,
            Param::Quality => "q"@,
        }
    }

    /// The parameter's key as it stands in a query string.
    pub fn name(self) -> (s: &'static str)
        ensures
            s@ == self.key(),
    {
        match self {
            Param::Source => "src",
            Param::Width => "w",
            Param::Quality => "q",
        }
    }
}

/// Why a request was not served. Every failure ends the request: nothing is
/// retried and no partial output is produced.
#[derive(Debug, PartialEq, Eq)]
pub enum PipelineError {
    /// A required query parameter is absent.
    MissingParameter(Param),
    /// A query parameter is present but unusable.
    InvalidParameter(Param),
    /// The origin could not be reached at all.
    OriginUnreachable,
    /// The origin answered with a status outside 200..=299.
    OriginFetchFailed(u16),
    /// The fetched bytes are not an image that can be read.
    DecodeFailed(String),
    /// The codec could not write the image.
    EncodeFailed(String),
    /// The request's method is not `GET`.
    MethodNotAllowed,
}

impl Clone for PipelineError {
    fn clone(&self) -> (copy: Self)
        ensures
            copy == *self,
    {
        match self {
            PipelineError::MissingParameter(p) => PipelineError::MissingParameter(*p),
            PipelineError::InvalidParameter(p) => PipelineError::InvalidParameter(*p),
            PipelineError::OriginUnreachable => PipelineError::OriginUnreachable,
            PipelineError::OriginFetchFailed(status) => PipelineError::OriginFetchFailed(*status),
            PipelineError::DecodeFailed(reason) => PipelineError::DecodeFailed(reason.clone()),
            PipelineError::EncodeFailed(reason) => PipelineError::EncodeFailed(reason.clone()),
            PipelineError::MethodNotAllowed => PipelineError::MethodNotAllowed,
        }
    }
}

impl PipelineError {
    /// The HTTP status that answers this failure. An origin that cannot be
    /// reached, or that answers with a failure of its own, is reported as a
    /// bad request: the caller chose the origin.
    pub open spec fn spec_status(&self) -> u16 {
        match self {
            PipelineError::MissingParameter(_) => 400,
            PipelineError::InvalidParameter(_) => 400,
            PipelineError::OriginUnreachable => 400,
            PipelineError::OriginFetchFailed(_) => 400,
            PipelineError::DecodeFailed(_) => 400,
            PipelineError::EncodeFailed(_) => 500,
            PipelineError::MethodNotAllowed => 405,
        }
    }

    /// The HTTP status that answers this failure.
    pub fn status(&self) -> (code: u16)
        ensures
            code == self.spec_status(),
            400 <= code <= 599,
    {
        match self {
            PipelineError::MissingParameter(_) => 400,
            PipelineError::InvalidParameter(_) => 400,
            PipelineError::OriginUnreachable => 400,
            PipelineError::OriginFetchFailed(_) => 400,
            PipelineError::DecodeFailed(_) => 400,
            PipelineError::EncodeFailed(_) => 500,
            PipelineError::MethodNotAllowed => 405,
        }
    }

    /// The text that the failure is reported with.
    pub open spec fn spec_message(&self) -> Seq<char> {
        match self {
            PipelineError::MissingParameter(p) => "missing parameter: "@ + p.key(),
            PipelineError::InvalidParameter(p) => "invalid parameter: "@ + p.key(),
            PipelineError::OriginUnreachable => "origin unreachable"@,
            PipelineError::OriginFetchFailed(status) => "origin responded with status "@
                + crate::text::decimal_digits(*status as nat),
            PipelineError::DecodeFailed(reason) => "decode failed: "@ + reason@,
            PipelineError::EncodeFailed(reason) => "encode failed: "@ + reason@,
            PipelineError::MethodNotAllowed => "method not allowed"@,
        }
    }

    /// The text that the failure is reported with.
    pub fn message(&self) -> (text: String)
        ensures
            text@ == self.spec_message(),
    {
        match self {
            PipelineError::MissingParameter(p) => {
                let mut text = "missing parameter: ".to_owned();
                text.append(p.name());
                text
            },
            PipelineError::InvalidParameter(p) => {
                let mut text = "invalid parameter: ".to_owned();
                text.append(p.name());
                text
            },
            PipelineError::OriginUnreachable => "origin unreachable".to_owned(),
            PipelineError::OriginFetchFailed(status) => {
                let mut text = "origin responded with status ".to_owned();
                let digits = crate::text::decimal_text(*status as u32);
                text.append(digits.as_str());
                text
            },
            PipelineError::DecodeFailed(reason) => {
                let mut text = "decode failed: ".to_owned();
                text.append(reason.as_str());
                text
            },
            PipelineError::EncodeFailed(reason) => {
                let mut text = "encode failed: ".to_owned();
                text.append(reason.as_str());
                text
            },
            PipelineError::MethodNotAllowed => "method not allowed".to_owned(),
        }
    }
}

} // verus!
