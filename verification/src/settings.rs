//! The configuration snapshot that the pipeline reads at the start of each
//! cycle: service endpoints and keys, language codes, the display policy,
//! and the voice-activity threshold.

use vstd::prelude::*;
use crate::FULL_SCALE;

verus! {

/// Policy choosing whether the published result shows the translated text
/// only, or the original text followed by the translated text.
#[derive(Clone, Copy, PartialEq, Eq, Structural, Debug)]
pub enum DisplayMode {
    TranslationOnly,
    Both,
}

/// One cycle's view of the configuration. A concurrent settings edit never
/// tears a cycle: the caller copies a snapshot out under its lock and
/// passes the copy through the whole cycle.
pub struct Settings {
    /// Transcription endpoint.
    pub api_url: String,
    /// Transcription bearer token; empty means no auth header.
    pub api_key: String,
    /// Voice-activity threshold as a fixed-point amplitude on the scale
    /// where `FULL_SCALE` (32768) is 1.0.
    pub silence_threshold: u32,
    /// Source language hint for transcription.
    pub language: String,
    /// Translation endpoint.
    pub chat_api_url: String,
    /// Translation bearer token; empty means no auth header.
    pub chat_api_key: String,
    /// Translation model identifier.
    pub chat_model: String,
    /// Target language; empty means no translation.
    pub target_language: String,
    pub display_mode: DisplayMode,
    /// Capture device name; empty means the system default.
    pub input_device: String,
}

impl Settings {
    /// The threshold must stay on the sample scale: a root-mean-square
    /// amplitude can never exceed full scale, so larger values are
    /// meaningless.
    pub open spec fn wf(self) -> bool {
        self.silence_threshold <= FULL_SCALE
    }
}

impl Default for Settings {
    /// The default configuration: transcription and translation against
    /// the OpenAI endpoints with no keys, Korean source, English target,
    /// translation-only display, the default capture device, and a
    /// threshold of 98 (0.003 of full scale).
    fn default() -> (s: Settings)
        ensures
            s.wf(),
            s.api_url@ == "https://api.openai.com/v1/audio/transcriptions"@,
            s.api_key@ == Seq::<char>::empty(),
            s.silence_threshold == 98,
            s.language@ == "ko"@,
            s.chat_api_url@ == "https://api.openai.com/v1/chat/completions"@,
            s.chat_api_key@ == Seq::<char>::empty(),
            s.chat_model@ == "gpt-4o"@,
            s.target_language@ == "en"@,
            s.display_mode == DisplayMode::TranslationOnly,
            s.input_device@ == Seq::<char>::empty(),
    {
        Settings {
            api_url: "https://api.openai.com/v1/audio/transcriptions".to_owned(),
            api_key: String::new(),
            silence_threshold: 98,
            language: "ko".to_owned(),
            chat_api_url: "https://api.openai.com/v1/chat/completions".to_owned(),
            chat_api_key: String::new(),
            chat_model: "gpt-4o".to_owned(),
            target_language: "en".to_owned(),
            display_mode: DisplayMode::TranslationOnly,
            input_device: String::new(),
        }
    }
}

} // verus!
