use voice_session::AudioSourceCache;
use voice_session::LoadOutcome;
use voice_session::ResourceLoadError;

#[test]
fn load_missing_resource_fails() {
    let mut cache = AudioSourceCache::new();
    assert_eq!(cache.load(LoadOutcome::Missing), Err(ResourceLoadError::Missing));
    assert!(cache.clip().is_none());
    assert_eq!(cache.decodes(), 0);
}

#[test]
fn load_unreadable_resource_fails() {
    let mut cache = AudioSourceCache::new();
    assert_eq!(cache.load(LoadOutcome::Unreadable), Err(ResourceLoadError::Unreadable));
    assert!(cache.clip().is_none());
}

#[test]
fn load_empty_resource_is_undecodable() {
    let mut cache = AudioSourceCache::new();
    assert_eq!(cache.load(LoadOutcome::Bytes(Vec::new())), Err(ResourceLoadError::Undecodable));
    assert!(cache.clip().is_none());
    assert_eq!(cache.decodes(), 0);
}

#[test]
fn load_decodes_at_most_once() {
    let mut cache = AudioSourceCache::new();
    assert_eq!(cache.load(LoadOutcome::Bytes(vec![1, 2, 3, 4])), Ok(()));
    assert_eq!(cache.decodes(), 1);
    assert_eq!(cache.clip().unwrap().len(), 4);
    // A second load finds the cached clip: nothing is read or decoded again,
    // whatever the loader would have handed back this time.
    assert_eq!(cache.load(LoadOutcome::Missing), Ok(()));
    assert_eq!(cache.load(LoadOutcome::Bytes(vec![9])), Ok(()));
    assert_eq!(cache.decodes(), 1);
    assert_eq!(cache.clip().unwrap().len(), 4);
}

#[test]
fn handles_are_independent() {
    let mut cache = AudioSourceCache::new();
    cache.load(LoadOutcome::Bytes(vec![0; 100])).unwrap();
    let clip = cache.clip().unwrap();
    let mut h1 = clip.new_handle();
    let mut h2 = clip.new_handle();
    let h3 = clip.new_handle();

    h1.start();
    h1.advance(5);
    assert!(h1.playing);
    assert_eq!(h1.position, 5);
    // Starting and advancing h1 left the other handles untouched.
    assert!(!h2.playing);
    assert_eq!(h2.position, 0);
    assert!(!h3.playing);
    assert_eq!(h3.position, 0);

    h2.start();
    h2.advance(30);
    h2.pause();
    assert_eq!(h2.position, 30);
    assert!(!h2.playing);
    // Pausing h2 did not move or stop h1.
    assert!(h1.playing);
    assert_eq!(h1.position, 5);

    h1.stop();
    assert_eq!(h1.position, 0);
    assert!(!h1.playing);
    // Stopping h1 kept h2's paused position.
    assert_eq!(h2.position, 30);
}

#[test]
fn advance_saturates_at_clip_end() {
    let mut cache = AudioSourceCache::new();
    cache.load(LoadOutcome::Bytes(vec![7; 4])).unwrap();
    let mut h = cache.clip().unwrap().new_handle();
    assert_eq!(h.remaining(), 4);
    assert!(!h.at_end());
    h.advance(10);
    assert_eq!(h.position, 4);
    assert!(h.at_end());
    assert_eq!(h.remaining(), 0);
    h.advance(1);
    assert_eq!(h.position, 4);
}
