//! The voice connection manager: a per-guild table of voice connections
//! with idempotent join and leave, one playback session per connection,
//! and per-session error observers.
//!
//! Joining is split in two, mirroring the asynchronous transport
//! handshake: `join_begin` decides what the transport must do and records
//! a `Connecting` entry, and `join_complete` settles that entry once the
//! transport reports back. A `leave` between the two cancels the pending
//! join by removing the entry. Each mutating operation is one exclusive
//! access to the manager (`&mut self`), which serializes joins for the
//! same guild: two concurrent join requests can never race to create two
//! connections for one guild.

use std::collections::HashMap;

use vstd::prelude::*;

use crate::audio::PlaybackHandle;
use crate::audio::spec_started;
use crate::errors::AlreadyPlayingError;
use crate::errors::VoiceJoinError;
use crate::events::ErrorObserver;
use crate::events::Notification;
use crate::events::TrackErrorEvent;

verus! {

broadcast use vstd::std_specs::hash::group_hash_axioms;

/// Connectivity of a voice connection. The manager's table only ever
/// holds live entries (`Connecting` or `Connected`): a connection that
/// fails or is left enters `Failed` or `Disconnected` on its way out of
/// the table, never while it is in it.
#[derive(Clone, Copy, Debug, PartialEq, Eq, Structural)]
pub enum ConnState {
    /// Not a member of any voice channel.
    Disconnected,
    /// The transport handshake is in flight.
    Connecting,
    /// The bot is a member of the target channel.
    Connected,
    /// The transport could not establish the connection.
    Failed,
}

/// One playback session: one handle bound to one connection, with
/// zero-or-one registered error observer.
#[derive(Clone, Copy, Debug, PartialEq, Eq)]
pub struct PlaybackSession {
    /// The cursor this session plays from.
    pub handle: PlaybackHandle,
    /// Identifier of the track this session is playing. No two live
    /// sessions share one, and the manager's track counter only grows, so
    /// an identifier is never issued twice.
    pub track_id: u64,
    /// The error observer registered against this session, if any.
    pub observer: Option<ErrorObserver>,
}

impl PlaybackSession {
    /// A session is well formed when its handle is.
    pub open spec fn wf(self) -> bool {
        self.handle.wf()
    }
}

/// The bot's membership in one voice channel of one guild, together with
/// the at-most-one playback session bound to it.
#[derive(Clone, Copy, Debug, PartialEq, Eq)]
pub struct VoiceConnection {
    /// The guild this connection belongs to.
    pub guild_id: u64,
    /// The voice channel the connection targets.
    pub channel_id: u64,
    /// Connectivity state.
    pub state: ConnState,
    /// The active playback session, if one is running.
    pub session: Option<PlaybackSession>,
}

impl VoiceConnection {
    /// A live table entry: the handshake is in flight or settled, and a
    /// session exists only on a settled connection.
    pub open spec fn wf(self) -> bool {
        &&& self.state is Connecting || self.state is Connected
        &&& (self.session matches Some(s) ==> s.wf() && self.state is Connected)
    }
}

/// What `join_begin` asks the embedding layer to do next.
#[derive(Clone, Copy, Debug, PartialEq, Eq, Structural)]
pub enum JoinStart {
    /// A connection for the guild already targets the channel; it is
    /// reused as it stands and the transport has nothing to do.
    AlreadyJoined,
    /// No connection existed: a `Connecting` entry was recorded. Drive the
    /// transport handshake, then report its outcome with `join_complete`.
    ConnectStarted,
    /// The guild's connection targeted another channel and is being moved:
    /// its entry was replaced in place by a `Connecting` entry for the new
    /// channel. Drive the transport, then report with `join_complete`.
    MoveStarted,
}

/// The fresh table entry a join records while the handshake is in flight.
pub open spec fn connecting_entry(guild_id: u64, channel_id: u64) -> VoiceConnection {
    VoiceConnection { guild_id, channel_id, state: ConnState::Connecting, session: None }
}

/// What `join_begin` does to the table, and what it returns.
pub open spec fn spec_join_begin(
    t: Map<u64, VoiceConnection>,
    guild_id: u64,
    channel_id: u64,
    user_voice_capable: bool,
    channel_is_voice: bool,
) -> (Map<u64, VoiceConnection>, Result<JoinStart, VoiceJoinError>) {
    if !user_voice_capable {
        (t, Err(VoiceJoinError::NotVoiceCapable))
    } else if !channel_is_voice {
        (t, Err(VoiceJoinError::NotAVoiceChannel))
    } else if t.contains_key(guild_id) {
        if t[guild_id].channel_id == channel_id {
            (t, Ok(JoinStart::AlreadyJoined))
        } else {
            (t.insert(guild_id, connecting_entry(guild_id, channel_id)), Ok(JoinStart::MoveStarted))
        }
    } else {
        (t.insert(guild_id, connecting_entry(guild_id, channel_id)), Ok(JoinStart::ConnectStarted))
    }
}

/// What `join_complete` does to the table, and what it returns.
pub open spec fn spec_join_complete(
    t: Map<u64, VoiceConnection>,
    guild_id: u64,
    connected: bool,
) -> (Map<u64, VoiceConnection>, Result<(), VoiceJoinError>) {
    if t.contains_key(guild_id) && t[guild_id].state is Connecting {
        if connected {
            (
                t.insert(guild_id, VoiceConnection { state: ConnState::Connected, ..t[guild_id] }),
                Ok(()),
            )
        } else {
            (t.remove(guild_id), Err(VoiceJoinError::TransportFailed))
        }
    } else {
        (t, Err(VoiceJoinError::Cancelled))
    }
}

/// What `leave` does to the table.
pub open spec fn spec_leave(t: Map<u64, VoiceConnection>, guild_id: u64) -> Map<
    u64,
    VoiceConnection,
> {
    if t.contains_key(guild_id) {
        t.remove(guild_id)
    } else {
        t
    }
}

/// What `start` does to the table and the track counter, and what it
/// returns. Meaningful when the table holds an entry for the guild.
pub open spec fn spec_start(
    t: Map<u64, VoiceConnection>,
    next_track_id: u64,
    guild_id: u64,
    handle: PlaybackHandle,
) -> (Map<u64, VoiceConnection>, u64, Result<u64, AlreadyPlayingError>) {
    if t[guild_id].session is Some {
        (t, next_track_id, Err(AlreadyPlayingError))
    } else {
        let session = PlaybackSession {
            handle: spec_started(handle),
            track_id: next_track_id,
            observer: None,
        };
        (
            t.insert(guild_id, VoiceConnection { session: Some(session), ..t[guild_id] }),
            (next_track_id + 1) as u64,
            Ok(next_track_id),
        )
    }
}

/// What `stop` does to the table.
pub open spec fn spec_stop(t: Map<u64, VoiceConnection>, guild_id: u64) -> Map<
    u64,
    VoiceConnection,
> {
    if t.contains_key(guild_id) && t[guild_id].session is Some {
        t.insert(
            guild_id,
            VoiceConnection { session: None, ..t[guild_id] },
        )
    } else {
        t
    }
}

/// What `register` does to the table. Meaningful when the guild's entry
/// holds a session.
pub open spec fn spec_register(
    t: Map<u64, VoiceConnection>,
    guild_id: u64,
    observer: ErrorObserver,
) -> Map<u64, VoiceConnection> {
    let c = t[guild_id];
    let s = c.session->Some_0;
    t.insert(
        guild_id,
        VoiceConnection {
            session: Some(PlaybackSession { observer: Some(observer), ..s }),
            ..c
        },
    )
}

/// What `unregister` does to the table.
pub open spec fn spec_unregister(t: Map<u64, VoiceConnection>, guild_id: u64) -> Map<
    u64,
    VoiceConnection,
> {
    if t.contains_key(guild_id) && t[guild_id].session is Some {
        let c = t[guild_id];
        let s = c.session->Some_0;
        t.insert(
            guild_id,
            VoiceConnection { session: Some(PlaybackSession { observer: None, ..s }), ..c },
        )
    } else {
        t
    }
}

/// Which observer a delivered event invokes: exactly the one registered
/// on the session of the addressed guild whose track the event names.
pub open spec fn spec_deliver(
    t: Map<u64, VoiceConnection>,
    guild_id: u64,
    event: TrackErrorEvent,
) -> Option<Notification> {
    if t.contains_key(guild_id) {
        match t[guild_id].session {
            Some(s) => match s.observer {
                Some(obs) => if s.track_id == event.track_id {
                    Some(Notification { observer: obs, event })
                } else {
                    None
                },
                None => None,
            },
            None => None,
        }
    } else {
        None
    }
}

/// Which reports a whole batch of events produces on one guild's bus, in
/// delivery order: one report for each event that invokes an observer.
pub open spec fn spec_deliver_all(
    t: Map<u64, VoiceConnection>,
    guild_id: u64,
    events: Seq<TrackErrorEvent>,
) -> Seq<Notification>
    decreases events.len(),
{
    if events.len() == 0 {
        Seq::empty()
    } else {
        match spec_deliver(t, guild_id, events[0]) {
            Some(n) => seq![n] + spec_deliver_all(t, guild_id, events.drop_first()),
            None => spec_deliver_all(t, guild_id, events.drop_first()),
        }
    }
}

/// Delivering one batch after another reports the same as delivering the
/// concatenation of the two.
proof fn lemma_deliver_all_append(
    t: Map<u64, VoiceConnection>,
    guild_id: u64,
    s1: Seq<TrackErrorEvent>,
    s2: Seq<TrackErrorEvent>,
)
    ensures
        spec_deliver_all(t, guild_id, s1 + s2) == spec_deliver_all(t, guild_id, s1)
            + spec_deliver_all(t, guild_id, s2),
    decreases s1.len(),
{
    if s1.len() == 0 {
        assert(s1 + s2 =~= s2);
        assert(spec_deliver_all(t, guild_id, s1) + spec_deliver_all(t, guild_id, s2)
            =~= spec_deliver_all(t, guild_id, s2));
    } else {
        assert((s1 + s2).drop_first() =~= s1.drop_first() + s2);
        lemma_deliver_all_append(t, guild_id, s1.drop_first(), s2);
        assert((s1 + s2)[0] == s1[0]);
        match spec_deliver(t, guild_id, s1[0]) {
            Some(n) => {
                assert(seq![n] + (spec_deliver_all(t, guild_id, s1.drop_first())
                    + spec_deliver_all(t, guild_id, s2)) =~= (seq![n] + spec_deliver_all(
                    t,
                    guild_id,
                    s1.drop_first(),
                )) + spec_deliver_all(t, guild_id, s2));
            },
            None => {},
        }
    }
}

/// Maps each guild identifier to at most one voice connection, and issues
/// track identifiers that are never reused.
#[derive(Debug)]
pub struct VoiceManager {
    connections: HashMap<u64, VoiceConnection>,
    next_track_id: u64,
}

impl View for VoiceManager {
    type V = Map<u64, VoiceConnection>;

    closed spec fn view(&self) -> Map<u64, VoiceConnection> {
        self.connections@
    }
}

impl VoiceManager {
    /// The next track identifier the manager will issue.
    pub closed spec fn next_track(self) -> u64 {
        self.next_track_id
    }

    /// Every entry is keyed by its own guild, is a live, well-formed
    /// connection, and plays a track issued by this manager; no two live
    /// sessions play the same track.
    pub open spec fn wf(self) -> bool {
        &&& forall|g: u64| #[trigger] self@.contains_key(g) ==> {
            let c = self@[g];
            &&& c.guild_id == g
            &&& c.wf()
            &&& (c.session matches Some(s) ==> s.track_id < self.next_track())
        }
        &&& forall|g1: u64, g2: u64|
            #![trigger self@[g1].session, self@[g2].session]
            (g1 != g2 && self@.contains_key(g1) && self@.contains_key(g2)
                && self@[g1].session is Some && self@[g2].session is Some)
                ==> self@[g1].session->Some_0.track_id != self@[g2].session->Some_0.track_id
    }

    /// Whether the manager can still issue a fresh track identifier. Only
    /// more starts than a machine word can count would exhaust it.
    pub open spec fn can_issue_track(self) -> bool {
        self.next_track() < u64::MAX
    }

    /// A manager with no connections.
    pub fn new() -> (m: VoiceManager)
        ensures
            m.wf(),
            m@ == Map::<u64, VoiceConnection>::empty(),
            m.next_track() == 0,
    {
        VoiceManager { connections: HashMap::new(), next_track_id: 0 }
    }

    /// Resolve or create the guild's connection for a join request. If a
    /// connection already targets the channel it is reused as it stands
    /// (idempotent). Otherwise a `Connecting` entry is recorded — in place
    /// of the old one when the guild was connected elsewhere — and the
    /// caller must drive the transport and then report the outcome with
    /// `join_complete`. A request from a context that cannot join voice,
    /// or towards a channel that is not a voice channel, is refused and
    /// the table is left untouched.
    pub fn join_begin(
        &mut self,
        guild_id: u64,
        channel_id: u64,
        user_voice_capable: bool,
        channel_is_voice: bool,
    ) -> (r: Result<JoinStart, VoiceJoinError>)
        requires
            old(self).wf(),
        ensures
            final(self).wf(),
            final(self).next_track() == old(self).next_track(),
            (final(self)@, r) == spec_join_begin(
                old(self)@,
                guild_id,
                channel_id,
                user_voice_capable,
                channel_is_voice,
            ),
    {
        if !user_voice_capable {
            return Err(VoiceJoinError::NotVoiceCapable);
        }
        if !channel_is_voice {
            return Err(VoiceJoinError::NotAVoiceChannel);
        }
        let mut found = false;
        let mut same_channel = false;
        match self.connections.get(&guild_id) {
            Some(c) => {
                found = true;
                same_channel = c.channel_id == channel_id;
            },
            None => {},
        }
        if found && same_channel {
            Ok(JoinStart::AlreadyJoined)
        } else {
            let entry = VoiceConnection {
                guild_id,
                channel_id,
                state: ConnState::Connecting,
                session: None,
            };
            self.connections.insert(guild_id, entry);
            if found {
                Ok(JoinStart::MoveStarted)
            } else {
                Ok(JoinStart::ConnectStarted)
            }
        }
    }

    /// Settle the pending join of a guild with the transport's outcome.
    /// On success the entry becomes `Connected`; on failure it is removed,
    /// so a stale entry never blocks a retry. A completion that finds no
    /// pending join — a `leave` cancelled it in flight — is refused and
    /// changes nothing.
    pub fn join_complete(&mut self, guild_id: u64, connected: bool) -> (r: Result<
        (),
        VoiceJoinError,
    >)
        requires
            old(self).wf(),
        ensures
            final(self).wf(),
            final(self).next_track() == old(self).next_track(),
            (final(self)@, r) == spec_join_complete(old(self)@, guild_id, connected),
    {
        let existing: Option<VoiceConnection> = match self.connections.get(&guild_id) {
            Some(c) => Some(*c),
            None => None,
        };
        match existing {
            Some(c) => match c.state {
                ConnState::Connecting => {
                    if connected {
                        let upd = VoiceConnection { state: ConnState::Connected, ..c };
                        self.connections.insert(guild_id, upd);
                        Ok(())
                    } else {
                        self.connections.remove(&guild_id);
                        Err(VoiceJoinError::TransportFailed)
                    }
                },
                _ => Err(VoiceJoinError::Cancelled),
            },
            None => Err(VoiceJoinError::Cancelled),
        }
    }

    /// Tear down the guild's connection and any session attached to it.
    /// Idempotent: on a guild with no connection it is a no-op and still
    /// succeeds. A pending join for the guild is cancelled by this, since
    /// its `Connecting` entry is removed like any other.
    pub fn leave(&mut self, guild_id: u64)
        requires
            old(self).wf(),
        ensures
            final(self).wf(),
            final(self).next_track() == old(self).next_track(),
            final(self)@ == spec_leave(old(self)@, guild_id),
            !old(self)@.contains_key(guild_id) ==> final(self)@ == old(self)@,
    {
        self.connections.remove(&guild_id);
        proof {
            if !old(self)@.contains_key(guild_id) {
                assert(old(self)@.remove(guild_id) =~= old(self)@);
            }
        }
    }

    /// Bind a handle to the guild's connection and begin playback,
    /// returning the fresh track identifier of the new session. Fails
    /// with `AlreadyPlayingError`, leaving the running session and
    /// everything else unchanged, if the connection already has one: a
    /// connection plays at most one clip at a time.
    pub fn start(&mut self, guild_id: u64, handle: PlaybackHandle) -> (r: Result<
        u64,
        AlreadyPlayingError,
    >)
        requires
            old(self).wf(),
            handle.wf(),
            old(self)@.contains_key(guild_id),
            old(self)@[guild_id].state is Connected,
            old(self).can_issue_track(),
        ensures
            final(self).wf(),
            (final(self)@, final(self).next_track(), r) == spec_start(
                old(self)@,
                old(self).next_track(),
                guild_id,
                handle,
            ),
            old(self)@[guild_id].session is Some ==> r == Err::<u64, AlreadyPlayingError>(
                AlreadyPlayingError,
            ) && *final(self) == *old(self),
            old(self)@[guild_id].session is None ==> r == Ok::<u64, AlreadyPlayingError>(
                old(self).next_track(),
            ),
    {
        let c: VoiceConnection = *self.connections.get(&guild_id).unwrap();
        match c.session {
            Some(_) => Err(AlreadyPlayingError),
            None => {
                let mut started = handle;
                started.start();
                let session = PlaybackSession {
                    handle: started,
                    track_id: self.next_track_id,
                    observer: None,
                };
                let upd = VoiceConnection { session: Some(session), ..c };
                self.connections.insert(guild_id, upd);
                let tid = self.next_track_id;
                self.next_track_id = tid + 1;
                Ok(tid)
            },
        }
    }

    /// End the guild's playback session: release its handle and detach it
    /// from the connection. Always succeeds and is idempotent — without a
    /// connection or a session there is nothing to do.
    pub fn stop(&mut self, guild_id: u64)
        requires
            old(self).wf(),
        ensures
            final(self).wf(),
            final(self).next_track() == old(self).next_track(),
            final(self)@ == spec_stop(old(self)@, guild_id),
    {
        let existing: Option<VoiceConnection> = match self.connections.get(&guild_id) {
            Some(c) => Some(*c),
            None => None,
        };
        match existing {
            Some(c) => match c.session {
                Some(_) => {
                    let upd = VoiceConnection { session: None, ..c };
                    self.connections.insert(guild_id, upd);
                },
                None => {},
            },
            None => {},
        }
    }

    /// Register an error observer against the guild's playback session.
    /// The observer stays registered, and is invoked on every error event
    /// delivered for the session's track, until it is unregistered or the
    /// connection is torn down. Registering again replaces the observer:
    /// a session holds at most one.
    pub fn register(&mut self, guild_id: u64, observer: ErrorObserver)
        requires
            old(self).wf(),
            old(self)@.contains_key(guild_id),
            old(self)@[guild_id].session is Some,
        ensures
            final(self).wf(),
            final(self).next_track() == old(self).next_track(),
            final(self)@ == spec_register(old(self)@, guild_id, observer),
            final(self)@[guild_id].session->Some_0.observer == Some(observer),
    {
        let c: VoiceConnection = *self.connections.get(&guild_id).unwrap();
        match c.session {
            Some(s) => {
                let upd = VoiceConnection {
                    session: Some(PlaybackSession { observer: Some(observer), ..s }),
                    ..c
                };
                self.connections.insert(guild_id, upd);
            },
            None => {},
        }
    }

    /// Remove the observer from the guild's playback session, if any.
    /// Idempotent: with no connection, no session or no observer there is
    /// nothing to do.
    pub fn unregister(&mut self, guild_id: u64)
        requires
            old(self).wf(),
        ensures
            final(self).wf(),
            final(self).next_track() == old(self).next_track(),
            final(self)@ == spec_unregister(old(self)@, guild_id),
    {
        let existing: Option<VoiceConnection> = match self.connections.get(&guild_id) {
            Some(c) => Some(*c),
            None => None,
        };
        match existing {
            Some(c) => match c.session {
                Some(s) => {
                    let upd = VoiceConnection {
                        session: Some(PlaybackSession { observer: None, ..s }),
                        ..c
                    };
                    self.connections.insert(guild_id, upd);
                },
                None => {},
            },
            None => {},
        }
    }

    /// Deliver a track error event on the guild's event bus. Invokes
    /// exactly the observer registered on the session playing the event's
    /// track — none if the guild has no connection, no session, no
    /// registered observer, or a session playing a different track — and
    /// hands its report back. Nothing is mutated: playback, the table and
    /// every other guild's session are left exactly as they were.
    pub fn deliver_track_error(&self, guild_id: u64, event: &TrackErrorEvent) -> (r: Option<
        Notification,
    >)
        ensures
            r == spec_deliver(self@, guild_id, *event),
    {
        match self.connections.get(&guild_id) {
            Some(c) => match c.session {
                Some(s) => match s.observer {
                    Some(obs) => if s.track_id == event.track_id {
                        Some(obs.on_track_error(event))
                    } else {
                        None
                    },
                    None => None,
                },
                None => None,
            },
            None => None,
        }
    }

    /// Deliver a whole batch of track error events on the guild's bus, as
    /// the event scheduler does when several bound tracks report errors at
    /// once. The reports come back in delivery order, one for each event
    /// that invoked the registered observer; nothing is mutated.
    pub fn deliver_track_errors(&self, guild_id: u64, events: &Vec<TrackErrorEvent>) -> (r: Vec<
        Notification,
    >)
        ensures
            r@ == spec_deliver_all(self@, guild_id, events@),
    {
        let mut reports: Vec<Notification> = Vec::new();
        let mut i: usize = 0;
        while i < events.len()
            invariant
                i <= events@.len(),
                reports@ == spec_deliver_all(self@, guild_id, events@.take(i as int)),
            decreases events@.len() - i,
        {
            proof {
                let done = events@.take(i as int);
                let here = seq![events@[i as int]];
                assert(events@.take(i as int + 1) =~= done + here);
                lemma_deliver_all_append(self@, guild_id, done, here);
                assert(here.drop_first() =~= Seq::<TrackErrorEvent>::empty());
                assert(spec_deliver_all(self@, guild_id, Seq::<TrackErrorEvent>::empty())
                    == Seq::<Notification>::empty());
                match spec_deliver(self@, guild_id, events@[i as int]) {
                    Some(n) => {
                        assert(spec_deliver_all(self@, guild_id, here) =~= seq![n]);
                        assert(reports@.push(n) =~= spec_deliver_all(self@, guild_id, done)
                            + seq![n]);
                    },
                    None => {
                        assert(spec_deliver_all(self@, guild_id, done) + Seq::<
                            Notification,
                        >::empty() =~= spec_deliver_all(self@, guild_id, done));
                    },
                }
            }
            match self.deliver_track_error(guild_id, &events[i]) {
                Some(n) => reports.push(n),
                None => {},
            }
            i = i + 1;
        }
        proof {
            assert(events@.take(events@.len() as int) =~= events@);
        }
        reports
    }

    /// The guild's connection, if the table holds one.
    pub fn connection(&self, guild_id: u64) -> (r: Option<&VoiceConnection>)
        ensures
            match r {
                Some(c) => self@.contains_key(guild_id) && *c == self@[guild_id],
                None => !self@.contains_key(guild_id),
            },
    {
        self.connections.get(&guild_id)
    }

    /// How many guilds currently have a connection.
    pub fn connection_count(&self) -> (n: usize)
        ensures
            n == self@.len(),
    {
        self.connections.len()
    }

    /// The track identifier the next started session will carry.
    pub fn next_track_id(&self) -> (n: u64)
        ensures
            n == self.next_track(),
    {
        self.next_track_id
    }
}

} // verus!
