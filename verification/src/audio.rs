//! Audio source cache and playback handles.
//!
//! The cache holds one pre-decoded, in-memory audio clip, loaded at most
//! once per process lifetime, and the clip issues fresh, independent
//! playback handles on demand: each handle is a private cursor over the
//! shared immutable buffer, so starting or stopping one handle can never
//! affect another.

use vstd::prelude::*;

use crate::errors::ResourceLoadError;

verus! {

/// What the resource-loading collaborator handed back for a named audio
/// resource. Reading the file is the collaborator's job; classifying and
/// caching the outcome is the library's.
#[derive(Debug, PartialEq, Eq)]
pub enum LoadOutcome {
    /// No resource of that name exists.
    Missing,
    /// The resource exists but reading its bytes failed.
    Unreadable,
    /// The raw encoded bytes of the resource.
    Bytes(Vec<u8>),
}

/// An immutable, in-memory audio clip: the encoded bytes of one resource,
/// decodable by the external codec. Shared read-only across all sessions;
/// never mutated after it is cached.
#[derive(Debug, PartialEq, Eq)]
pub struct AudioClip {
    data: Vec<u8>,
}

impl View for AudioClip {
    type V = Seq<u8>;

    closed spec fn view(&self) -> Seq<u8> {
        self.data@
    }
}

impl AudioClip {
    /// A clip is well formed when it holds at least one byte: an empty
    /// resource carries no audio frames and is rejected as undecodable.
    pub open spec fn wf(self) -> bool {
        self@.len() > 0
    }

    /// How many bytes the clip holds.
    pub fn len(&self) -> (n: usize)
        ensures
            n == self@.len(),
    {
        self.data.len()
    }

    /// Issue a fresh playback handle over this clip: a cursor at the start
    /// of the shared buffer, not yet playing. Each call yields a handle
    /// independent of every previously issued one — the clip itself is
    /// read-only, so no call can observe or disturb another handle.
    pub fn new_handle(&self) -> (h: PlaybackHandle)
        ensures
            h.wf(),
            h.clip_len == self@.len(),
            h.position == 0,
            !h.playing,
    {
        PlaybackHandle { clip_len: self.data.len(), position: 0, playing: false }
    }
}

/// A lightweight, independent cursor into the cached clip. Starting,
/// pausing, stopping or advancing a handle changes that handle alone.
#[derive(Clone, Copy, Debug, PartialEq, Eq, Structural)]
pub struct PlaybackHandle {
    /// Length of the shared backing buffer the cursor ranges over.
    pub clip_len: usize,
    /// Current playback position, in bytes from the start of the buffer.
    pub position: usize,
    /// Whether the handle is currently playing.
    pub playing: bool,
}

/// The handle a `start` call produces: playing, cursor untouched.
pub open spec fn spec_started(h: PlaybackHandle) -> PlaybackHandle {
    PlaybackHandle { playing: true, ..h }
}

/// The handle a `pause` call produces: not playing, cursor kept.
pub open spec fn spec_paused(h: PlaybackHandle) -> PlaybackHandle {
    PlaybackHandle { playing: false, ..h }
}

/// The handle a `stop` call produces: not playing, cursor rewound.
pub open spec fn spec_stopped(h: PlaybackHandle) -> PlaybackHandle {
    PlaybackHandle { playing: false, position: 0, ..h }
}

/// The handle after the scheduler has pulled `amount` bytes: the cursor
/// moves forward and saturates at the end of the buffer.
pub open spec fn spec_advanced(h: PlaybackHandle, amount: usize) -> PlaybackHandle {
    if h.position + amount >= h.clip_len {
        PlaybackHandle { position: h.clip_len, ..h }
    } else {
        PlaybackHandle { position: (h.position + amount) as usize, ..h }
    }
}

impl PlaybackHandle {
    /// The cursor never points past the end of the backing buffer.
    pub open spec fn wf(self) -> bool {
        self.position <= self.clip_len
    }

    /// Begin playback on this handle. Only this handle changes, and only
    /// its playing flag: the cursor stays where it was.
    pub fn start(&mut self)
        requires
            old(self).wf(),
        ensures
            *final(self) == spec_started(*old(self)),
            final(self).wf(),
    {
        self.playing = true;
    }

    /// Pause playback: the cursor keeps its position so playback can
    /// resume where it left off.
    pub fn pause(&mut self)
        requires
            old(self).wf(),
        ensures
            *final(self) == spec_paused(*old(self)),
            final(self).wf(),
    {
        self.playing = false;
    }

    /// Stop playback and rewind the cursor. Idempotent.
    pub fn stop(&mut self)
        requires
            old(self).wf(),
        ensures
            *final(self) == spec_stopped(*old(self)),
            final(self).wf(),
    {
        self.playing = false;
        self.position = 0;
    }

    /// Move the cursor forward by `amount` bytes, saturating at the end of
    /// the buffer, as the scheduler does when it pulls samples.
    pub fn advance(&mut self, amount: usize)
        requires
            old(self).wf(),
        ensures
            *final(self) == spec_advanced(*old(self), amount),
            final(self).wf(),
    {
        if amount >= self.clip_len - self.position {
            self.position = self.clip_len;
        } else {
            self.position = self.position + amount;
        }
    }

    /// How many bytes remain in front of the cursor.
    pub fn remaining(&self) -> (n: usize)
        requires
            self.wf(),
        ensures
            n == self.clip_len - self.position,
    {
        self.clip_len - self.position
    }

    /// Whether the cursor has reached the end of the buffer.
    pub fn at_end(&self) -> (r: bool)
        ensures
            r == (self.position == self.clip_len),
    {
        self.position == self.clip_len
    }
}

/// Starting, pausing, stopping or advancing one handle leaves every other
/// handle unchanged: each handle is a value of its own, so an operation on
/// the handle at one index of a collection touches no other index.
pub proof fn lemma_handles_independent(hs: Seq<PlaybackHandle>, i: int, amount: usize)
    requires
        0 <= i < hs.len(),
    ensures
        forall|j: int|
            0 <= j < hs.len() && j != i ==> hs.update(i, spec_started(hs[i]))[j] == hs[j],
        forall|j: int|
            0 <= j < hs.len() && j != i ==> hs.update(i, spec_paused(hs[i]))[j] == hs[j],
        forall|j: int|
            0 <= j < hs.len() && j != i ==> hs.update(i, spec_stopped(hs[i]))[j] == hs[j],
        forall|j: int|
            0 <= j < hs.len() && j != i ==> hs.update(i, spec_advanced(hs[i], amount))[j]
                == hs[j],
{
}

/// Holds the one pre-decoded audio clip of the process. Decoding happens
/// at most once per process lifetime: a second load finds the cached clip
/// and neither rereads nor redecodes the backing resource.
#[derive(Debug)]
pub struct AudioSourceCache {
    clip: Option<AudioClip>,
    decodes: u64,
}

impl AudioSourceCache {
    /// Whether a clip has been loaded and cached.
    pub closed spec fn loaded(self) -> bool {
        self.clip is Some
    }

    /// The bytes of the cached clip (arbitrary while nothing is loaded).
    pub closed spec fn data(self) -> Seq<u8> {
        self.clip->Some_0@
    }

    /// How many times the backing resource has been decoded.
    pub closed spec fn decode_count(self) -> u64 {
        self.decodes
    }

    /// The cache decodes at most once, exactly when it holds a clip, and
    /// never caches an empty clip.
    pub open spec fn wf(self) -> bool {
        &&& self.decode_count() <= 1
        &&& (self.loaded() <==> self.decode_count() == 1)
        &&& (self.loaded() ==> self.data().len() > 0)
    }

    /// An empty cache: nothing loaded, nothing decoded yet.
    pub fn new() -> (c: AudioSourceCache)
        ensures
            c.wf(),
            !c.loaded(),
            c.decode_count() == 0,
    {
        AudioSourceCache { clip: None, decodes: 0 }
    }

    /// Load the audio resource from what the loading collaborator handed
    /// back. If a clip is already cached, the outcome is ignored and
    /// nothing is decoded again. Otherwise a missing or unreadable
    /// resource, or one with no bytes to decode, is rejected and the cache
    /// stays empty; any other resource is decoded once and cached.
    pub fn load(&mut self, outcome: LoadOutcome) -> (r: Result<(), ResourceLoadError>)
        requires
            old(self).wf(),
        ensures
            final(self).wf(),
            old(self).loaded() ==> *final(self) == *old(self) && r == Ok::<
                (),
                ResourceLoadError,
            >(()),
            !old(self).loaded() ==> match outcome {
                LoadOutcome::Missing => *final(self) == *old(self) && r == Err::<
                    (),
                    ResourceLoadError,
                >(ResourceLoadError::Missing),
                LoadOutcome::Unreadable => *final(self) == *old(self) && r == Err::<
                    (),
                    ResourceLoadError,
                >(ResourceLoadError::Unreadable),
                LoadOutcome::Bytes(b) => if b@.len() == 0 {
                    *final(self) == *old(self) && r == Err::<(), ResourceLoadError>(
                        ResourceLoadError::Undecodable,
                    )
                } else {
                    &&& r == Ok::<(), ResourceLoadError>(())
                    &&& final(self).loaded()
                    &&& final(self).data() == b@
                    &&& final(self).decode_count() == old(self).decode_count() + 1
                },
            },
    {
        if self.clip.is_some() {
            return Ok(());
        }
        match outcome {
            LoadOutcome::Missing => Err(ResourceLoadError::Missing),
            LoadOutcome::Unreadable => Err(ResourceLoadError::Unreadable),
            LoadOutcome::Bytes(b) => {
                if b.len() == 0 {
                    Err(ResourceLoadError::Undecodable)
                } else {
                    self.clip = Some(AudioClip { data: b });
                    self.decodes = self.decodes + 1;
                    Ok(())
                }
            },
        }
    }

    /// The cached clip, if one is loaded.
    pub fn clip(&self) -> (r: Option<&AudioClip>)
        ensures
            match r {
                Some(c) => self.loaded() && c@ == self.data(),
                None => !self.loaded(),
            },
    {
        self.clip.as_ref()
    }

    /// How many times the backing resource has been decoded so far: never
    /// more than once for the lifetime of the cache.
    pub fn decodes(&self) -> (n: u64)
        ensures
            n == self.decode_count(),
    {
        self.decodes
    }
}

} // verus!
