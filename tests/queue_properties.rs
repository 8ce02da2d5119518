use audioqueue::audio_queue::{AudioQueue, AudioQueueState, AudioTrack, PlaybackState, QueueError};

fn track(path: &str) -> AudioTrack {
    AudioTrack { path: path.to_string(), title: None, artist: None, duration_ms: None, position: 7 }
}

fn queue_of(paths: &[&str]) -> AudioQueue {
    let mut q = AudioQueue::new();
    for p in paths {
        q.add_track(track(p), None).unwrap();
    }
    q
}

fn paths(q: &AudioQueue) -> Vec<String> {
    q.get_queue().iter().map(|t| t.path.clone()).collect()
}

fn positions_match(q: &AudioQueue) -> bool {
    q.get_queue().iter().enumerate().all(|(i, t)| t.position == i)
}

#[test]
fn positions_follow_slots_after_every_operation() {
    let mut q = AudioQueue::new();
    q.add_track(track("a"), None).unwrap();
    assert!(positions_match(&q));
    q.add_track(track("b"), Some(0)).unwrap();
    assert!(positions_match(&q));
    q.add_track(track("c"), Some(1)).unwrap();
    assert!(positions_match(&q));
    q.move_track(2, 0).unwrap();
    assert!(positions_match(&q));
    q.remove_track(1).unwrap();
    assert!(positions_match(&q));
    assert!(q.add_track(track("d"), Some(9)).is_err());
    assert!(positions_match(&q));
    assert_eq!(paths(&q), vec!["a", "c"]);
}

#[test]
fn current_position_none_until_selected_then_in_range() {
    let mut q = queue_of(&["a", "b"]);
    assert_eq!(q.current_position, None);
    q.remove_track(0).unwrap();
    assert_eq!(q.current_position, None);
    q.play().unwrap();
    assert_eq!(q.current_position, Some(0));
    q.remove_track(0).unwrap();
    assert_eq!(q.current_position, None);
    assert_eq!(q.playback_state, PlaybackState::Stopped);
    assert_eq!(q.get_queue().len(), 0);
}

#[test]
fn removing_current_last_track_clamps() {
    let mut q = queue_of(&["a", "b", "c"]);
    q.jump_to(2).unwrap();
    q.remove_track(2).unwrap();
    assert_eq!(q.current_position, Some(1));
    assert_eq!(q.get_current_track().unwrap().path, "b");
}

#[test]
fn removing_current_middle_track_keeps_slot() {
    let mut q = queue_of(&["a", "b", "c"]);
    q.jump_to(1).unwrap();
    q.remove_track(1).unwrap();
    assert_eq!(q.current_position, Some(1));
    assert_eq!(q.get_current_track().unwrap().path, "c");
}

#[test]
fn moving_translates_current_position() {
    let mut q = queue_of(&["a", "b", "c", "d"]);
    q.jump_to(2).unwrap();
    q.move_track(0, 3).unwrap();
    assert_eq!(paths(&q), vec!["b", "c", "d", "a"]);
    assert_eq!(q.current_position, Some(1));
    assert_eq!(q.get_current_track().unwrap().path, "c");
    q.move_track(3, 0).unwrap();
    assert_eq!(q.current_position, Some(2));
    assert_eq!(q.get_current_track().unwrap().path, "c");
    q.move_track(2, 0).unwrap();
    assert_eq!(q.current_position, Some(0));
    q.jump_to(3).unwrap();
    q.move_track(0, 1).unwrap();
    assert_eq!(q.current_position, Some(3));
}

#[test]
fn insertion_keeps_current_index() {
    let mut q = queue_of(&["a", "b"]);
    q.jump_to(1).unwrap();
    q.add_track(track("x"), Some(0)).unwrap();
    assert_eq!(q.current_position, Some(1));
    assert_eq!(q.get_current_track().unwrap().path, "a");
}

#[test]
fn move_onto_same_index_changes_nothing() {
    let mut q = queue_of(&["a", "b", "c"]);
    q.jump_to(1).unwrap();
    q.move_track(1, 1).unwrap();
    assert_eq!(paths(&q), vec!["a", "b", "c"]);
    assert_eq!(q.current_position, Some(1));
    assert_eq!(q.playback_state, PlaybackState::Playing);
}

#[test]
fn state_round_trip_keeps_queue() {
    let mut q = queue_of(&["a", "b", "c"]);
    q.jump_to(2).unwrap();
    q.pause().unwrap();
    let loaded = AudioQueue::from_state(q.to_state());
    assert_eq!(loaded.get_queue(), q.get_queue());
    assert_eq!(loaded.current_position, Some(2));
    assert_eq!(loaded.playback_state, PlaybackState::Paused);
}

#[test]
fn malformed_state_loads_empty_queue() {
    let state = AudioQueueState {
        tracks: vec![track("a")],
        current_position: Some(5),
        playback_state: PlaybackState::Playing,
    };
    let q = AudioQueue::from_state(state);
    assert_eq!(q.get_queue().len(), 0);
    assert_eq!(q.current_position, None);
    assert_eq!(q.playback_state, PlaybackState::Stopped);

    let playing_without_selection = AudioQueueState {
        tracks: vec![track("a")],
        current_position: None,
        playback_state: PlaybackState::Playing,
    };
    assert_eq!(AudioQueue::from_state(playing_without_selection).get_queue().len(), 0);
}

#[test]
fn loaded_state_gets_positions_reindexed() {
    let state = AudioQueueState {
        tracks: vec![track("a"), track("b")],
        current_position: Some(1),
        playback_state: PlaybackState::Stopped,
    };
    let q = AudioQueue::from_state(state);
    assert!(positions_match(&q));
    assert_eq!(q.current_position, Some(1));
}

#[test]
fn next_on_last_fails_and_keeps_position() {
    let mut q = queue_of(&["a", "b", "c"]);
    q.jump_to(2).unwrap();
    assert_eq!(q.next_track(), Err(QueueError::AtBoundary));
    assert_eq!(q.current_position, Some(2));
}

#[test]
fn previous_on_first_fails_and_keeps_position() {
    let mut q = queue_of(&["a", "b"]);
    q.jump_to(0).unwrap();
    assert_eq!(q.previous(), Err(QueueError::AtBoundary));
    assert_eq!(q.current_position, Some(0));
}

#[test]
fn scenario_add_to_empty_queue() {
    let mut q = AudioQueue::new();
    q.add_track(track("x"), None).unwrap();
    assert_eq!(q.get_queue().len(), 1);
    assert_eq!(q.get_queue()[0].position, 0);
}

#[test]
fn scenario_move_first_to_last() {
    let mut q = queue_of(&["A", "B", "C"]);
    q.move_track(0, 2).unwrap();
    assert_eq!(paths(&q), vec!["B", "C", "A"]);
    let positions: Vec<usize> = q.get_queue().iter().map(|t| t.position).collect();
    assert_eq!(positions, vec![0, 1, 2]);
}

#[test]
fn scenario_remove_before_current() {
    let mut q = queue_of(&["A", "B", "C"]);
    q.jump_to(1).unwrap();
    q.remove_track(0).unwrap();
    assert_eq!(q.current_position, Some(0));
    assert_eq!(q.get_current_track().unwrap().path, "B");
}

#[test]
fn scenario_empty_queue_refuses_play_and_pause() {
    let mut q = AudioQueue::new();
    assert_eq!(q.play(), Err(QueueError::EmptyQueue));
    assert_eq!(q.pause(), Err(QueueError::NoSelection));
    assert_eq!(q.resume(), Err(QueueError::NoSelection));
    assert_eq!(q.next_track(), Err(QueueError::EmptyQueue));
    assert_eq!(q.previous(), Err(QueueError::EmptyQueue));
    assert_eq!(q.jump_to(0), Err(QueueError::OutOfBounds));
    assert_eq!(q.remove_track(0), Err(QueueError::OutOfBounds));
    assert_eq!(q.move_track(0, 0), Err(QueueError::OutOfBounds));
}

#[test]
fn scenario_jump_then_next_at_end() {
    let mut q = queue_of(&["A", "B"]);
    q.jump_to(1).unwrap();
    assert_eq!(q.next_track(), Err(QueueError::AtBoundary));
    assert_eq!(q.current_position, Some(1));
}

#[test]
fn navigation_selects_first_and_plays() {
    let mut q = queue_of(&["a", "b"]);
    q.next_track().unwrap();
    assert_eq!(q.current_position, Some(0));
    assert_eq!(q.playback_state, PlaybackState::Playing);
    let mut q = queue_of(&["a", "b"]);
    q.previous().unwrap();
    assert_eq!(q.current_position, Some(0));
    assert_eq!(q.playback_state, PlaybackState::Playing);
}

#[test]
fn resume_when_stopped_plays() {
    let mut q = queue_of(&["a", "b"]);
    q.jump_to(1).unwrap();
    q.pause().unwrap();
    q.resume().unwrap();
    assert_eq!(q.playback_state, PlaybackState::Playing);
    assert_eq!(q.current_position, Some(1));
}

#[test]
fn default_queue_is_empty() {
    let q = AudioQueue::default();
    assert_eq!(q.get_queue().len(), 0);
    assert_eq!(q.playback_state, PlaybackState::Stopped);
}

#[test]
fn consistency_check_spots_bad_positions() {
    let mut q = queue_of(&["a", "b"]);
    assert!(q.is_consistent());
    q.tracks[1].position = 0;
    assert!(!q.is_consistent());
    let mut q = queue_of(&["a"]);
    q.current_position = Some(1);
    assert!(!q.is_consistent());
}

#[test]
fn track_clone_is_equal() {
    let t = AudioTrack {
        path: "p.mp3".to_string(),
        title: Some("T".to_string()),
        artist: None,
        duration_ms: Some(5),
        position: 3,
    };
    assert_eq!(t.clone(), t);
}
