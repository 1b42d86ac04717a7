//! An on-demand image transformation pipeline: given the query of a request
//! and the image that its `src` points at, it validates the parameters,
//! decodes the image, resizes it to the width asked for, encodes it in the
//! format negotiated with the client, and builds the response.
//!
//! The library does no I/O. `pipeline::begin` says whether a request is to
//! be fetched, the caller fetches, and `pipeline::finish` gives the answer.
//! The codecs and the URL parser are outside crates; `codec` and `urls` hold
//! every call into them.

pub mod codec;
pub mod decode;
pub mod encode;
pub mod error;
pub mod format;
pub mod origin;
pub mod params;
pub mod pipeline;
pub mod raster;
pub mod resize;
pub mod response;
pub mod text;
pub mod urls;
