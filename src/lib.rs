//! A playlist queue for audio tracks: ordered tracks, a current position and a
//! playback state, the decisions of the processor that drives an output device,
//! and the text formats the queue is written in.

pub mod audio_emitter;
pub mod audio_queue;
pub mod metadata;
pub mod queue_processor;
pub mod queue_text;
pub mod text;
