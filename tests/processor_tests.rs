use audioqueue::audio_emitter::EmitterCommand;
use audioqueue::audio_queue::{AudioQueue, AudioTrack, PlaybackState, QueueCommand, QueueError};
use audioqueue::queue_processor::QueueProcessor;

fn track(path: &str) -> AudioTrack {
    AudioTrack { path: path.to_string(), title: None, artist: None, duration_ms: None, position: 0 }
}

fn queue_of(paths: &[&str]) -> AudioQueue {
    let mut q = AudioQueue::new();
    for p in paths {
        q.add_track(track(p), None).unwrap();
    }
    q
}

#[test]
fn auto_advance_plays_next_track() {
    let mut q = queue_of(&["A.mp3", "B.mp3"]);
    q.jump_to(0).unwrap();
    let mut p = QueueProcessor { was_playing: true };
    let mut out = Vec::new();
    p.check_track_finished(&mut q, true, &mut out);
    assert_eq!(q.current_position, Some(1));
    assert!(!p.was_playing);
    assert_eq!(
        out,
        vec![
            EmitterCommand::Stop,
            EmitterCommand::Stop,
            EmitterCommand::Play("B.mp3".to_string()),
            EmitterCommand::Stop,
            EmitterCommand::Play("B.mp3".to_string()),
        ]
    );
}

#[test]
fn auto_advance_at_last_track_only_stops() {
    let mut q = queue_of(&["A.mp3", "B.mp3"]);
    q.jump_to(1).unwrap();
    let mut p = QueueProcessor { was_playing: true };
    let mut out = Vec::new();
    p.check_track_finished(&mut q, true, &mut out);
    assert_eq!(q.current_position, Some(1));
    assert_eq!(out, vec![EmitterCommand::Stop]);
}

#[test]
fn poll_marks_playing_and_waits() {
    let mut q = queue_of(&["A.mp3", "B.mp3"]);
    q.play().unwrap();
    let mut p = QueueProcessor::new();
    let mut out = Vec::new();
    p.check_track_finished(&mut q, false, &mut out);
    assert!(p.was_playing);
    p.check_track_finished(&mut q, false, &mut out);
    assert!(p.was_playing);
    assert!(out.is_empty());
    assert_eq!(q.current_position, Some(0));
}

#[test]
fn poll_on_empty_queue_does_nothing() {
    let mut q = AudioQueue::new();
    let mut p = QueueProcessor { was_playing: true };
    let mut out = Vec::new();
    p.check_track_finished(&mut q, true, &mut out);
    assert!(!p.was_playing);
    assert!(out.is_empty());
}

#[test]
fn play_command_stops_then_plays_current() {
    let mut q = queue_of(&["A.mp3", "B.mp3"]);
    let mut out = Vec::new();
    QueueProcessor::handle_command(&mut q, QueueCommand::Play, &mut out).unwrap();
    assert_eq!(out, vec![EmitterCommand::Stop, EmitterCommand::Play("A.mp3".to_string())]);
    assert_eq!(q.playback_state, PlaybackState::Playing);
}

#[test]
fn commands_map_to_device_commands() {
    let mut q = queue_of(&["A.mp3", "B.mp3"]);
    let mut out = Vec::new();
    QueueProcessor::handle_command(&mut q, QueueCommand::Jump(1), &mut out).unwrap();
    QueueProcessor::handle_command(&mut q, QueueCommand::Pause, &mut out).unwrap();
    QueueProcessor::handle_command(&mut q, QueueCommand::Resume, &mut out).unwrap();
    QueueProcessor::handle_command(&mut q, QueueCommand::Previous, &mut out).unwrap();
    QueueProcessor::handle_command(&mut q, QueueCommand::Add(track("C.mp3"), None), &mut out).unwrap();
    QueueProcessor::handle_command(&mut q, QueueCommand::GetStatus, &mut out).unwrap();
    QueueProcessor::handle_command(&mut q, QueueCommand::Clear, &mut out).unwrap();
    assert_eq!(
        out,
        vec![
            EmitterCommand::Stop,
            EmitterCommand::Play("B.mp3".to_string()),
            EmitterCommand::Pause,
            EmitterCommand::Resume,
            EmitterCommand::Stop,
            EmitterCommand::Play("A.mp3".to_string()),
            EmitterCommand::Stop,
        ]
    );
    assert_eq!(q.get_queue().len(), 0);
}

#[test]
fn refused_command_sends_nothing() {
    let mut q = queue_of(&["A.mp3"]);
    let mut out = Vec::new();
    assert_eq!(
        QueueProcessor::handle_command(&mut q, QueueCommand::Remove(3), &mut out),
        Err(QueueError::OutOfBounds)
    );
    assert_eq!(
        QueueProcessor::handle_command(&mut q, QueueCommand::Pause, &mut out),
        Err(QueueError::NoSelection)
    );
    assert!(out.is_empty());
    assert_eq!(q.get_queue().len(), 1);
}
