//! Error taxonomy of the lifecycle manager.

use vstd::prelude::*;

verus! {

/// Why an audio resource could not be loaded into the cache. Fatal at
/// startup: the process must not proceed without the audio resource.
#[derive(Clone, Copy, Debug, PartialEq, Eq, Structural)]
pub enum ResourceLoadError {
    /// No resource of the requested name exists.
    Missing,
    /// The resource exists but its bytes could not be read.
    Unreadable,
    /// The bytes were read but do not decode as audio.
    Undecodable,
}

/// Why a join request was refused or failed. Recoverable: reported to the
/// invoking collaborator; the connection table is left consistent.
#[derive(Clone, Copy, Debug, PartialEq, Eq, Structural)]
pub enum VoiceJoinError {
    /// The invoking user could not be resolved to a voice-capable context.
    NotVoiceCapable,
    /// The target channel is not a voice channel.
    NotAVoiceChannel,
    /// The transport failed to establish the connection within its timeout.
    /// The partial connection is removed from the table, so a retry is not
    /// blocked by a stale entry.
    TransportFailed,
    /// The pending join no longer exists: a leave for the same guild tore
    /// down the partially established connection before the transport
    /// reported back.
    Cancelled,
}

/// Returned by `start` when the connection already has an active playback
/// session. Recoverable: the redundant start is rejected and the existing
/// session keeps running unchanged.
#[derive(Clone, Copy, Debug, PartialEq, Eq, Structural)]
pub struct AlreadyPlayingError;

} // verus!
