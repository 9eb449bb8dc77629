//! The ways in which a resolution, or the loading of the cached document,
//! can fail.

use vstd::prelude::*;

verus! {

/// Why no endpoint came out of a scan.
#[derive(Debug, Clone, Copy, PartialEq, Eq, Structural)]
pub enum ResolutionError {
    /// The reader met markup that is not well formed.
    MalformedDocument,
    /// The document ended and no record of the requested region was found.
    DocumentExhausted,
    /// The record of the requested region holds nothing for the channel.
    EmptyEndpoint,
}

/// Why the cached document could not be had.
#[derive(Debug, Clone, Copy, PartialEq, Eq, Structural)]
pub enum CacheError {
    /// The document could not be fetched from the remote source.
    Network,
    /// The cache directory or the cached file could not be written.
    CacheWrite,
    /// The cached file could not be read.
    CacheRead,
}

} // verus!
