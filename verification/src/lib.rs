//! Real-time audio-to-phrase pipeline: voice-activity detection over batches
//! of 16-bit PCM samples, phrase segmentation with silence and timeout
//! policies, WAV encoding of finalized phrases, and the orchestration rules
//! that turn a transcript (and an optional translation) into a published
//! display string and a session log record.

use vstd::prelude::*;

pub mod capture;
pub mod dispatch;
pub mod history;
pub mod pipeline;
pub mod segmenter;
pub mod settings;
pub mod text;
pub mod wav;

verus! {

/// Number of consecutive silent polls that end a phrase (about 500 ms at the
/// 50 ms polling cadence).
pub const SILENCE_CHUNKS_TO_END: usize = 10;

/// Hard cap, in seconds, on the length of a single accumulated phrase.
pub const MAX_PHRASE_SECS: usize = 30;

/// Full-scale amplitude of a 16-bit sample; thresholds are fixed-point
/// values on the same scale, so an amplitude of 1.0 corresponds to 32768.
pub const FULL_SCALE: u32 = 32768;

} // verus!
