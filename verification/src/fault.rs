//! What is done about the things that go wrong.
//!
//! Three classes: a fault of the device ends the process; an image that
//! cannot be acquired costs one frame of one node; everything else the caller
//! is told, except an update for a node without a surface, which is no fault
//! at all.

use vstd::prelude::*;
use crate::readback::ReadbackError;

verus! {

/// A thing that went wrong.
#[derive(Debug, Clone, Copy, PartialEq, Eq, Structural)]
pub enum Failure {
    /// The device ran out of memory.
    DeviceOutOfMemory,
    /// The device refused a command as invalid.
    DeviceValidation,
    /// The device failed in a way the backend did not foresee.
    DeviceInternal,
    /// The next image of a surface could not be acquired: the surface was
    /// lost or outdated, or the wait timed out.
    FrameUnavailable,
    /// A texture's format cannot be read back.
    UnsupportedFormat,
    /// A texture is too large to be read back.
    TextureTooLarge,
    /// The backend failed to map the staging buffer.
    MapFailed,
    /// The completion channel of the map request was dropped.
    MapChannelClosed,
    /// An export names an output that does not exist.
    MissingOutput,
    /// An update or a clear names a node without a surface.
    MissingSurface,
}

/// What is done about a failure.
#[derive(Debug, Clone, Copy, PartialEq, Eq, Structural)]
pub enum Disposition {
    /// End the process: nothing can be recovered locally.
    Abort,
    /// Log it and skip this node for this frame; change nothing else.
    SkipFrame,
    /// Hand the caller an explicit error.
    Report,
    /// Do nothing, silently.
    Ignore,
}

/// The disposition that the policy gives each failure.
pub open spec fn policy(failure: Failure) -> Disposition {
    match failure {
        Failure::DeviceOutOfMemory | Failure::DeviceValidation | Failure::DeviceInternal =>
            Disposition::Abort,
        Failure::FrameUnavailable => Disposition::SkipFrame,
        Failure::UnsupportedFormat
        | Failure::TextureTooLarge
        | Failure::MapFailed
        | Failure::MapChannelClosed
        | Failure::MissingOutput => Disposition::Report,
        Failure::MissingSurface => Disposition::Ignore,
    }
}

/// Looks up what is done about `failure`.
pub fn disposition(failure: Failure) -> (verdict: Disposition)
    ensures
        verdict == policy(failure),
{
    match failure {
        Failure::DeviceOutOfMemory => Disposition::Abort,
        Failure::DeviceValidation => Disposition::Abort,
        Failure::DeviceInternal => Disposition::Abort,
        Failure::FrameUnavailable => Disposition::SkipFrame,
        Failure::UnsupportedFormat => Disposition::Report,
        Failure::TextureTooLarge => Disposition::Report,
        Failure::MapFailed => Disposition::Report,
        Failure::MapChannelClosed => Disposition::Report,
        Failure::MissingOutput => Disposition::Report,
        Failure::MissingSurface => Disposition::Ignore,
    }
}

/// The failure that a readback error stands for.
pub open spec fn failure_of(error: ReadbackError) -> Failure {
    match error {
        ReadbackError::UnsupportedFormat => Failure::UnsupportedFormat,
        ReadbackError::TooLarge => Failure::TextureTooLarge,
        ReadbackError::MapFailed(_) => Failure::MapFailed,
        ReadbackError::ChannelClosed => Failure::MapChannelClosed,
    }
}

/// Classifies a readback error.
pub fn readback_failure(error: &ReadbackError) -> (failure: Failure)
    ensures
        failure == failure_of(*error),
        policy(failure) == Disposition::Report,
{
    match error {
        ReadbackError::UnsupportedFormat => Failure::UnsupportedFormat,
        ReadbackError::TooLarge => Failure::TextureTooLarge,
        ReadbackError::MapFailed(_) => Failure::MapFailed,
        ReadbackError::ChannelClosed => Failure::MapChannelClosed,
    }
}

} // verus!
