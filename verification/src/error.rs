//! Failure classification for the mount protocol.

use vstd::prelude::*;

verus! {

/// How an operation failed.
///
/// Transport failures are not represented here: the host application
/// propagates them unchanged from its channel. These two variants classify
/// what the device itself answered.
#[derive(Debug, Clone, Copy, PartialEq, Eq)]
pub enum MounterError {
    /// The device broke the protocol contract: a response missed an
    /// expected field, or carried an unexpected status value.
    UnexpectedResponse,
    /// The device validly reported that it has no answer; raised only by
    /// the personalization-manifest query when the manifest field is
    /// absent.
    NotFound,
}

} // verus!
