//! Commands for the audio output device and the emitter's decisions on what
//! the device reports.

use vstd::prelude::*;

verus! {

/// What the output device is doing, as the emitter last set it.
#[derive(Debug, Clone, Copy, PartialEq, Eq, Structural)]
pub enum EmitterState {
    Stopped,
    Playing,
    Paused,
}

/// A command for the output device.
#[derive(Debug, Clone, PartialEq, Eq)]
pub enum EmitterCommand {
    /// Load the file at this path and play it.
    Play(String),
    Pause,
    Resume,
    Stop,
    /// Set the volume, in thousandths of full scale.
    Volume(u16),
    /// Seek to this offset, in milliseconds.
    Seek(u64),
    GetStatus,
}

/// What the output device reports of the sink that holds the loaded audio.
#[derive(Debug, Clone, Copy, PartialEq, Eq, Structural)]
pub struct SinkStatus {
    /// Playback of the sink is paused.
    pub paused: bool,
    /// The sink holds no more audio: nothing was loaded, or it has all played.
    pub empty: bool,
}

/// Why the emitter refused a command.
#[derive(Debug, Clone, Copy, PartialEq, Eq, Structural)]
pub enum EmitterError {
    /// No audio has been loaded into a sink yet.
    NoSink,
    /// The sink is empty: nothing loaded, or the audio has finished.
    NothingLoaded,
}

/// Full volume, in thousandths.
pub const FULL_VOLUME: u16 = 1000;

impl EmitterState {
    /// The state after `play`: a paused sink resumes, an empty one has nothing
    /// to play, and otherwise playback starts.
    pub fn after_play(sink: Option<SinkStatus>) -> (r: Result<EmitterState, EmitterError>)
        ensures
            r == match sink {
                None => Err(EmitterError::NoSink),
                Some(s) => if !s.paused && s.empty {
                    Err(EmitterError::NothingLoaded)
                } else {
                    Ok(EmitterState::Playing)
                },
            },
    {
        match sink {
            None => Err(EmitterError::NoSink),
            Some(s) => {
                if s.paused {
                    Ok(EmitterState::Playing)
                } else if s.empty {
                    Err(EmitterError::NothingLoaded)
                } else {
                    Ok(EmitterState::Playing)
                }
            },
        }
    }

    /// The state after `pause`; there must be a sink.
    pub fn after_pause(sink: Option<SinkStatus>) -> (r: Result<EmitterState, EmitterError>)
        ensures
            r == if sink is Some {
                Ok::<EmitterState, EmitterError>(EmitterState::Paused)
            } else {
                Err(EmitterError::NoSink)
            },
    {
        match sink {
            Some(_) => Ok(EmitterState::Paused),
            None => Err(EmitterError::NoSink),
        }
    }

    /// The state after `stop`; there must be a sink.
    pub fn after_stop(sink: Option<SinkStatus>) -> (r: Result<EmitterState, EmitterError>)
        ensures
            r == if sink is Some {
                Ok::<EmitterState, EmitterError>(EmitterState::Stopped)
            } else {
                Err(EmitterError::NoSink)
            },
    {
        match sink {
            Some(_) => Ok(EmitterState::Stopped),
            None => Err(EmitterError::NoSink),
        }
    }
}

/// The current track has finished when there is no sink or it is empty.
pub fn is_finished(sink: Option<SinkStatus>) -> (r: bool)
    ensures
        r == match sink {
            None => true,
            Some(s) => s.empty,
        },
{
    match sink {
        None => true,
        Some(s) => s.empty,
    }
}

/// A requested volume, in thousandths of full scale, clamped to
/// `0..=FULL_VOLUME`.
pub fn volume_level(thousandths: i64) -> (r: u16)
    ensures
        r as int == if thousandths < 0 {
            0
        } else if thousandths > FULL_VOLUME as int {
            FULL_VOLUME as int
        } else {
            thousandths as int
        },
{
    if thousandths < 0 {
        0
    } else if thousandths > FULL_VOLUME as i64 {
        FULL_VOLUME
    } else {
        thousandths as u16
    }
}

} // verus!
