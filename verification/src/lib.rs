//! An on-demand media delivery core: resolving partially-specified resize
//! parameters into exact target dimensions, transcoding image bytes with two
//! fit policies, deciding tiered storage fallback, and gating content types
//! and response disposition. Retrieval and metadata I/O live outside; this
//! crate holds the decisions and transforms, with their contracts.

use vstd::prelude::*;

pub mod pipeline;
pub mod policy;
pub mod resolve;
pub mod retrieve;
pub mod transcode;

verus! {

/// The error taxonomy of the delivery pipeline. Decode and encode failures
/// stay internal to the transcoder and are absorbed by graceful degradation;
/// the remaining variants propagate to the client.
#[derive(Clone, Copy, PartialEq, Eq, Structural, Debug)]
pub enum ServeError {
    NotFound,
    ContentTypeNotAllowed,
    StorageUnavailable,
    InvalidParameters,
}

} // verus!
