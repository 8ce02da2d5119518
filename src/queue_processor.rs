//! The processor's decisions: what each command does to the queue and which
//! device commands follow, and the completion poll that auto-advances.

use vstd::prelude::*;

use crate::audio_emitter::EmitterCommand;
use crate::audio_queue::{command_result, outcome, AudioQueue, PlaybackState, QueueCommand, QueueError};

verus! {

/// The device commands that follow a command that succeeded on the queue,
/// which is `after` once it has been applied: a change of what should be
/// playing stops the device and plays the current track; pause, resume and
/// clear map to the device's own.
pub open spec fn device_commands(c: QueueCommand, after: AudioQueue) -> Seq<EmitterCommand> {
    match c {
        QueueCommand::Play | QueueCommand::Next | QueueCommand::Previous | QueueCommand::Jump(_) => {
            match after.current_track() {
                Some(t) => seq![EmitterCommand::Stop, EmitterCommand::Play(t.path)],
                None => Seq::empty(),
            }
        },
        QueueCommand::Pause => seq![EmitterCommand::Pause],
        QueueCommand::Resume => seq![EmitterCommand::Resume],
        QueueCommand::Clear => seq![EmitterCommand::Stop],
        _ => Seq::empty(),
    }
}

/// Whether a command may change the tracks themselves, not only which one is
/// current and the playback state.
pub open spec fn changes_tracks(c: QueueCommand) -> bool {
    match c {
        QueueCommand::Add(_, _) | QueueCommand::Remove(_) | QueueCommand::Move(_, _) | QueueCommand::Clear => true,
        _ => false,
    }
}

/// Whether a completion poll advances: the queue has tracks, it was playing at
/// the previous poll, and now the device has finished or the queue has stopped
/// playing.
pub open spec fn advances(was_playing: bool, q: AudioQueue, device_finished: bool) -> bool {
    &&& q.tracks@.len() > 0
    &&& was_playing
    &&& (device_finished || q.playback_state != PlaybackState::Playing)
}

/// The single consumer of queue commands. It applies each one to the queue and
/// says which commands the output device gets; between commands it polls for
/// the end of the current track and advances.
#[derive(Debug, Clone, Copy, PartialEq, Eq, Structural)]
pub struct QueueProcessor {
    /// Whether the queue was playing at the previous completion poll.
    pub was_playing: bool,
}

impl QueueProcessor {
    pub fn new() -> (r: Self)
        ensures
            !r.was_playing,
    {
        QueueProcessor { was_playing: false }
    }

    /// Apply `command` to the queue and append the device commands that follow
    /// it to `out`. A refused command changes neither.
    pub fn handle_command(queue: &mut AudioQueue, command: QueueCommand, out: &mut Vec<EmitterCommand>) -> (r: Result<(), QueueError>)
        requires
            old(queue).wf(),
        ensures
            final(queue).wf(),
            outcome(old(queue)@, final(queue)@, r, command_result(old(queue)@, command)),
            r is Ok ==> final(out)@ == old(out)@ + device_commands(command, *final(queue)),
            r is Err ==> final(out)@ == old(out)@,
            changes_tracks(command) || final(queue).tracks@ == old(queue).tracks@,
    {
        let ghost given = command;
        let follow = match &command {
            QueueCommand::Play | QueueCommand::Next | QueueCommand::Previous | QueueCommand::Jump(_) => {
                Some(EmitterCommand::Stop)
            },
            QueueCommand::Pause => Some(EmitterCommand::Pause),
            QueueCommand::Resume => Some(EmitterCommand::Resume),
            QueueCommand::Clear => Some(EmitterCommand::Stop),
            _ => None,
        };
        let plays = match &command {
            QueueCommand::Play | QueueCommand::Next | QueueCommand::Previous | QueueCommand::Jump(_) => true,
            _ => false,
        };
        let r = match command {
            QueueCommand::Add(track, position) => queue.add_track(track, position),
            QueueCommand::Remove(i) => queue.remove_track(i),
            QueueCommand::Move(from, to) => queue.move_track(from, to),
            QueueCommand::Play => queue.play(),
            QueueCommand::Pause => queue.pause(),
            QueueCommand::Resume => queue.resume(),
            QueueCommand::Next => queue.next_track(),
            QueueCommand::Previous => queue.previous(),
            QueueCommand::Jump(i) => queue.jump_to(i),
            QueueCommand::Clear => queue.clear(),
            QueueCommand::GetStatus => Ok(()),
        };
        if r.is_err() {
            return r;
        }
        if plays {
            if let Some(t) = queue.get_current_track() {
                out.push(EmitterCommand::Stop);
                out.push(EmitterCommand::Play(t.path.clone()));
            }
        } else if let Some(c) = follow {
            out.push(c);
        }
        assert(out@ =~= old(out)@ + device_commands(given, *queue));
        r
    }

    /// One completion poll. On an empty queue it forgets that anything was
    /// playing. When it `advances`, it stops the device and runs `Next`
    /// through `handle_command`, then `Play` if `Next` succeeded; at the last
    /// track the queue stays as it was. Otherwise it records whether the queue
    /// is playing now.
    pub fn check_track_finished(&mut self, queue: &mut AudioQueue, device_finished: bool, out: &mut Vec<EmitterCommand>)
        requires
            old(queue).wf(),
        ensures
            final(queue).wf(),
            old(queue).tracks@.len() == 0 ==> {
                &&& !final(self).was_playing
                &&& *final(queue) == *old(queue)
                &&& final(out)@ == old(out)@
            },
            advances(old(self).was_playing, *old(queue), device_finished) ==> {
                &&& !final(self).was_playing
                &&& match old(queue)@.next() {
                    Ok(q) => {
                        &&& final(queue)@ == q
                        &&& final(out)@ == old(out)@ + seq![EmitterCommand::Stop]
                            + device_commands(QueueCommand::Next, *final(queue))
                            + device_commands(QueueCommand::Play, *final(queue))
                    },
                    Err(_) => {
                        &&& final(queue)@ == old(queue)@
                        &&& final(out)@ == old(out)@ + seq![EmitterCommand::Stop]
                    },
                }
            },
            old(queue).tracks@.len() > 0 && !advances(old(self).was_playing, *old(queue), device_finished) ==> {
                &&& final(self).was_playing == (old(queue).playback_state == PlaybackState::Playing)
                &&& *final(queue) == *old(queue)
                &&& final(out)@ == old(out)@
            },
    {
        if queue.tracks.len() == 0 {
            self.was_playing = false;
            return;
        }
        let playing = queue.playback_state == PlaybackState::Playing;
        if self.was_playing && (device_finished || !playing) {
            self.was_playing = false;
            out.push(EmitterCommand::Stop);
            let next = QueueProcessor::handle_command(queue, QueueCommand::Next, out);
            if next.is_ok() {
                let ghost after_next = out@;
                let ghost q1 = *queue;
                let _ = QueueProcessor::handle_command(queue, QueueCommand::Play, out);
                assert(queue.current_track() == q1.current_track());
                assert(out@ =~= after_next + device_commands(QueueCommand::Play, *queue));
            }
        } else {
            self.was_playing = playing;
        }
    }
}

} // verus!
