//! Voice-session lifecycle manager for a chat-platform audio bot.
//!
//! The library owns the state that makes a voice bot correct: a per-guild
//! table of voice connections with idempotent join and leave, an audio
//! source cache that issues independent playback handles over one shared
//! clip, one playback session per connection, and an error-observation
//! hook that reports track failures without disturbing playback. All
//! transport, command routing and file reading live outside the library
//! and hand it plain values.

pub mod audio;
pub mod errors;
pub mod events;
pub mod laws;
pub mod manager;

pub use audio::AudioClip;
pub use audio::AudioSourceCache;
pub use audio::LoadOutcome;
pub use audio::PlaybackHandle;
pub use errors::AlreadyPlayingError;
pub use errors::ResourceLoadError;
pub use errors::VoiceJoinError;
pub use events::ErrorObserver;
pub use events::Notification;
pub use events::TrackErrorEvent;
pub use events::TrackFailure;
pub use manager::ConnState;
pub use manager::JoinStart;
pub use manager::PlaybackSession;
pub use manager::VoiceConnection;
pub use manager::VoiceManager;
