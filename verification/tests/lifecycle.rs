use voice_session::AlreadyPlayingError;
use voice_session::AudioSourceCache;
use voice_session::ConnState;
use voice_session::ErrorObserver;
use voice_session::JoinStart;
use voice_session::LoadOutcome;
use voice_session::TrackErrorEvent;
use voice_session::TrackFailure;
use voice_session::VoiceJoinError;
use voice_session::VoiceManager;

fn settled_manager(guild_id: u64, channel_id: u64) -> VoiceManager {
    let mut m = VoiceManager::new();
    m.join_begin(guild_id, channel_id, true, true).unwrap();
    m.join_complete(guild_id, true).unwrap();
    m
}

fn stub_handle() -> voice_session::PlaybackHandle {
    let mut cache = AudioSourceCache::new();
    cache.load(LoadOutcome::Bytes(vec![0; 64])).unwrap();
    cache.clip().unwrap().new_handle()
}

#[test]
fn join_same_channel_is_idempotent() {
    let mut m = settled_manager(1, 2);
    let first = *m.connection(1).unwrap();
    assert_eq!(m.join_begin(1, 2, true, true), Ok(JoinStart::AlreadyJoined));
    let second = *m.connection(1).unwrap();
    assert_eq!(first, second);
    assert_eq!(m.connection_count(), 1);
    assert_eq!(second.state, ConnState::Connected);
    assert_eq!(second.channel_id, 2);
}

#[test]
fn join_other_channel_moves_the_connection() {
    let mut m = settled_manager(1, 2);
    assert_eq!(m.join_begin(1, 3, true, true), Ok(JoinStart::MoveStarted));
    assert_eq!(m.join_complete(1, true), Ok(()));
    assert_eq!(m.connection_count(), 1);
    let c = m.connection(1).unwrap();
    assert_eq!(c.guild_id, 1);
    assert_eq!(c.channel_id, 3);
    assert_eq!(c.state, ConnState::Connected);
}

#[test]
fn join_requires_a_voice_capable_context() {
    let mut m = VoiceManager::new();
    assert_eq!(m.join_begin(1, 2, false, true), Err(VoiceJoinError::NotVoiceCapable));
    assert_eq!(m.join_begin(1, 2, false, false), Err(VoiceJoinError::NotVoiceCapable));
    assert_eq!(m.connection_count(), 0);
}

#[test]
fn join_requires_a_voice_channel() {
    let mut m = VoiceManager::new();
    assert_eq!(m.join_begin(1, 2, true, false), Err(VoiceJoinError::NotAVoiceChannel));
    assert_eq!(m.connection_count(), 0);
}

#[test]
fn transport_failure_removes_the_entry_so_a_retry_is_not_blocked() {
    let mut m = VoiceManager::new();
    assert_eq!(m.join_begin(5, 6, true, true), Ok(JoinStart::ConnectStarted));
    assert_eq!(m.join_complete(5, false), Err(VoiceJoinError::TransportFailed));
    assert!(m.connection(5).is_none());
    // The failed join left no stale entry: a retry starts a fresh connect.
    assert_eq!(m.join_begin(5, 6, true, true), Ok(JoinStart::ConnectStarted));
    assert_eq!(m.join_complete(5, true), Ok(()));
    assert_eq!(m.connection(5).unwrap().state, ConnState::Connected);
}

#[test]
fn leave_cancels_an_in_flight_join() {
    let mut m = VoiceManager::new();
    assert_eq!(m.join_begin(5, 6, true, true), Ok(JoinStart::ConnectStarted));
    m.leave(5);
    assert!(m.connection(5).is_none());
    // The transport's late report finds its join cancelled.
    assert_eq!(m.join_complete(5, true), Err(VoiceJoinError::Cancelled));
    assert!(m.connection(5).is_none());
}

#[test]
fn completion_without_a_pending_join_is_refused() {
    let mut m = VoiceManager::new();
    assert_eq!(m.join_complete(9, true), Err(VoiceJoinError::Cancelled));
    let mut m2 = settled_manager(9, 1);
    assert_eq!(m2.join_complete(9, true), Err(VoiceJoinError::Cancelled));
}

#[test]
fn start_on_a_playing_connection_fails_and_changes_nothing() {
    let mut m = settled_manager(1, 2);
    let tid = m.start(1, stub_handle()).unwrap();
    let before = *m.connection(1).unwrap();
    assert_eq!(m.start(1, stub_handle()), Err(AlreadyPlayingError));
    let after = *m.connection(1).unwrap();
    assert_eq!(before, after);
    assert_eq!(after.session.unwrap().track_id, tid);
    assert!(after.session.unwrap().handle.playing);
}

#[test]
fn stop_is_idempotent_and_frees_the_connection_for_a_new_session() {
    let mut m = settled_manager(1, 2);
    let first = m.start(1, stub_handle()).unwrap();
    m.stop(1);
    assert!(m.connection(1).unwrap().session.is_none());
    m.stop(1);
    assert!(m.connection(1).unwrap().session.is_none());
    let second = m.start(1, stub_handle()).unwrap();
    // Track identifiers are never reused.
    assert_ne!(first, second);
}

#[test]
fn delivery_invokes_exactly_the_observer_of_the_matching_session() {
    let mut m = settled_manager(1, 2);
    m.join_begin(7, 8, true, true).unwrap();
    m.join_complete(7, true).unwrap();
    let t1 = m.start(1, stub_handle()).unwrap();
    let t7 = m.start(7, stub_handle()).unwrap();
    m.register(1, ErrorObserver::Log);
    m.register(7, ErrorObserver::Log);

    let ev = TrackErrorEvent { track_id: t1, failure: TrackFailure::Decode, timestamp: 100 };
    // On guild 1's bus the registered observer is invoked with the event.
    let n = m.deliver_track_error(1, &ev).unwrap();
    assert_eq!(n.observer, ErrorObserver::Log);
    assert_eq!(n.event, ev);
    // Guild 7's session plays another track: its observer is not invoked,
    // and neither session changed.
    assert!(m.deliver_track_error(7, &ev).is_none());
    assert_eq!(m.connection(1).unwrap().session.unwrap().track_id, t1);
    assert_eq!(m.connection(7).unwrap().session.unwrap().track_id, t7);
    assert!(m.connection(1).unwrap().session.unwrap().handle.playing);
    assert!(m.connection(7).unwrap().session.unwrap().handle.playing);
}

#[test]
fn delivery_without_observer_or_with_stale_track_invokes_nothing() {
    let mut m = settled_manager(1, 2);
    let tid = m.start(1, stub_handle()).unwrap();
    let ev = TrackErrorEvent { track_id: tid, failure: TrackFailure::Transport, timestamp: 3 };
    // No observer registered yet.
    assert!(m.deliver_track_error(1, &ev).is_none());
    m.register(1, ErrorObserver::Log);
    assert!(m.deliver_track_error(1, &ev).is_some());
    // A stale event for a track the session does not play is dropped.
    let stale = TrackErrorEvent { track_id: tid + 1, failure: TrackFailure::Stalled, timestamp: 4 };
    assert!(m.deliver_track_error(1, &stale).is_none());
    // After unregistering, nothing is invoked again.
    m.unregister(1);
    assert!(m.deliver_track_error(1, &ev).is_none());
    // And on a guild with no connection at all, nothing is invoked.
    assert!(m.deliver_track_error(99, &ev).is_none());
}

#[test]
fn batch_delivery_reports_each_matching_event_in_order() {
    let mut m = settled_manager(1, 2);
    let tid = m.start(1, stub_handle()).unwrap();
    m.register(1, ErrorObserver::Log);
    let events = vec![
        TrackErrorEvent { track_id: tid, failure: TrackFailure::Decode, timestamp: 10 },
        TrackErrorEvent { track_id: tid + 1, failure: TrackFailure::Stalled, timestamp: 11 },
        TrackErrorEvent { track_id: tid, failure: TrackFailure::Transport, timestamp: 12 },
    ];
    let reports = m.deliver_track_errors(1, &events);
    assert_eq!(reports.len(), 2);
    assert_eq!(reports[0].event, events[0]);
    assert_eq!(reports[1].event, events[2]);
    // An empty batch reports nothing.
    assert!(m.deliver_track_errors(1, &Vec::new()).is_empty());
    // On a bus with no observer the whole batch is dropped.
    m.unregister(1);
    assert!(m.deliver_track_errors(1, &events).is_empty());
}

#[test]
fn leave_on_a_guild_without_connection_is_a_no_op() {
    let mut m = VoiceManager::new();
    m.leave(123);
    assert_eq!(m.connection_count(), 0);
    let mut m2 = settled_manager(1, 2);
    m2.leave(123);
    assert_eq!(m2.connection_count(), 1);
    assert_eq!(m2.connection(1).unwrap().channel_id, 2);
}

#[test]
fn scenario_join_play_error_leave_rejoin() {
    // Load a stub clip standing in for a short audio file.
    let mut cache = AudioSourceCache::new();
    cache.load(LoadOutcome::Bytes(vec![1; 2 * 48000])).unwrap();
    let mut m = VoiceManager::new();

    // Join guild 42, channel 7.
    assert_eq!(m.join_begin(42, 7, true, true), Ok(JoinStart::ConnectStarted));
    assert_eq!(m.join_complete(42, true), Ok(()));
    let c = *m.connection(42).unwrap();
    assert_eq!(c.guild_id, 42);
    assert_eq!(c.channel_id, 7);
    assert_eq!(c.state, ConnState::Connected);

    // One active playback session with a registered observer.
    let handle = cache.clip().unwrap().new_handle();
    let track = m.start(42, handle).unwrap();
    m.register(42, ErrorObserver::Log);
    assert!(m.connection(42).unwrap().session.is_some());

    // Inject a track error event for the session's track: the observer is
    // invoked exactly once, with that event.
    let ev = TrackErrorEvent { track_id: track, failure: TrackFailure::Decode, timestamp: 1000 };
    let n = m.deliver_track_error(42, &ev).unwrap();
    assert_eq!(n.event, ev);
    assert_eq!(n.observer, ErrorObserver::Log);

    // Leave: connection and session are removed.
    m.leave(42);
    assert!(m.connection(42).is_none());
    assert_eq!(m.connection_count(), 0);

    // A later join creates a fresh connection.
    assert_eq!(m.join_begin(42, 7, true, true), Ok(JoinStart::ConnectStarted));
    assert_eq!(m.join_complete(42, true), Ok(()));
    let fresh = m.connection(42).unwrap();
    assert_eq!(fresh.state, ConnState::Connected);
    assert!(fresh.session.is_none());
}
