//! Track error events and the observers that consume them.

use vstd::prelude::*;

verus! {

/// The failure state a track reported to the event scheduler: a non-fatal
/// runtime error, reported to observers without tearing the connection
/// down.
#[derive(Clone, Copy, Debug, PartialEq, Eq, Structural)]
pub enum TrackFailure {
    /// The decoder could not produce further audio from the source.
    Decode,
    /// The media transport dropped while the track was playing.
    Transport,
    /// The track stalled without reporting a more specific cause.
    Stalled,
}

/// An immutable record emitted by the event scheduler whenever a bound
/// track reports an error state. Consumed, never mutated, by observers.
#[derive(Clone, Copy, Debug, PartialEq, Eq, Structural)]
pub struct TrackErrorEvent {
    /// Identifier of the failing track.
    pub track_id: u64,
    /// The failure the track reported.
    pub failure: TrackFailure,
    /// When the scheduler emitted the event, in milliseconds of its clock.
    pub timestamp: u64,
}

/// The error-observation capability that can be registered against a
/// playback session: a polymorphic observer invoked with each track error
/// event delivered for that session's track.
#[derive(Clone, Copy, Debug, PartialEq, Eq, Structural)]
pub enum ErrorObserver {
    /// Reports the failing track and its state so the embedding layer can
    /// log them.
    Log,
}

/// What one observer produced for one delivered event. Handed back to the
/// embedding layer, which logs or displays it; playback is not altered.
#[derive(Clone, Copy, Debug, PartialEq, Eq, Structural)]
pub struct Notification {
    /// The observer that was invoked.
    pub observer: ErrorObserver,
    /// The event it was invoked with.
    pub event: TrackErrorEvent,
}

impl ErrorObserver {
    /// Invoke the observer on one event. Total: an observer can never fail
    /// in a way that would propagate into the scheduler loop, so invoking
    /// one always yields a report and alters nothing else.
    pub fn on_track_error(&self, event: &TrackErrorEvent) -> (n: Notification)
        ensures
            n.observer == *self,
            n.event == *event,
    {
        Notification { observer: *self, event: *event }
    }
}

} // verus!
