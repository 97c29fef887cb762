use livecaptran::pipeline::{Pipeline, SessionEdge};
use livecaptran::settings::{DisplayMode, Settings};
use livecaptran::capture::downmix_to_mono;

const THRESHOLD: u32 = 98;

fn constant_batch(value: i16, len: usize) -> Vec<i16> {
    vec![value; len]
}

#[test]
fn session_edges_are_reported() {
    let mut p = Pipeline::new();
    assert_eq!(p.set_session_active(false), SessionEdge::NoChange);
    assert_eq!(p.set_session_active(true), SessionEdge::Started);
    assert_eq!(p.set_session_active(true), SessionEdge::NoChange);
    assert_eq!(p.set_session_active(false), SessionEdge::Stopped);
}

#[test]
fn session_end_twice_is_idempotent_and_clears_state() {
    let mut p = Pipeline::new();
    p.set_session_active(true);
    // accumulate some speech and publish a result mid-session
    let voiced = constant_batch(328, 160);
    assert!(p.poll_batch(&voiced, 16000, THRESHOLD).is_none());
    assert!(p.seg.speaking);
    p.finish_phrase(&"hello".to_string(), Some("bonjour".to_string()), DisplayMode::Both);
    assert_eq!(p.published().as_str(), "hello\nbonjour");

    p.set_session_active(false);
    p.set_session_active(false);
    assert_eq!(p.seg.phrase.len(), 0);
    assert!(!p.seg.speaking);
    assert_eq!(p.published().as_str(), "");
}

#[test]
fn polls_are_skipped_outside_a_session() {
    let mut p = Pipeline::new();
    let voiced = constant_batch(328, 160);
    assert!(p.poll_batch(&voiced, 16000, THRESHOLD).is_none());
    assert!(!p.seg.speaking);
}

#[test]
fn polls_are_skipped_before_rate_is_known_and_on_empty_batches() {
    let mut p = Pipeline::new();
    p.set_session_active(true);
    let voiced = constant_batch(328, 160);
    assert!(p.poll_batch(&voiced, 0, THRESHOLD).is_none());
    assert!(!p.seg.speaking);
    assert!(p.poll_batch(&Vec::new(), 16000, THRESHOLD).is_none());
    assert!(!p.seg.speaking);
}

#[test]
fn finish_phrase_without_translation_publishes_transcript_only() {
    let mut p = Pipeline::new();
    p.set_session_active(true);
    p.finish_phrase(&"hello".to_string(), None, DisplayMode::TranslationOnly);
    assert_eq!(p.published().as_str(), "hello");
    assert_eq!(p.history.len(), 0);
}

#[test]
fn finish_phrase_with_translation_updates_history() {
    let mut p = Pipeline::new();
    p.set_session_active(true);
    for i in 0..5 {
        p.finish_phrase(
            &format!("orig {i}"),
            Some(format!("trans {i}")),
            DisplayMode::TranslationOnly,
        );
        assert!(p.history.len() <= 3);
    }
    assert_eq!(p.history.len(), 3);
    let (o, t) = p.history.get(0);
    assert_eq!(o.as_str(), "orig 2");
    assert_eq!(t.as_str(), "trans 2");
    assert_eq!(p.published().as_str(), "trans 4");
}

#[test]
fn history_survives_session_toggles() {
    let mut p = Pipeline::new();
    p.set_session_active(true);
    p.finish_phrase(&"a".to_string(), Some("b".to_string()), DisplayMode::TranslationOnly);
    p.set_session_active(false);
    p.set_session_active(true);
    assert_eq!(p.history.len(), 1);
}

#[test]
fn full_phrase_cycle_through_the_pipeline() {
    let mut p = Pipeline::new();
    p.set_session_active(true);
    let rate = 16000;
    let voiced = constant_batch(328, 8001);
    let silent = constant_batch(3, 8001);
    assert!(p.poll_batch(&voiced, rate, THRESHOLD).is_none());
    for _ in 0..9 {
        assert!(p.poll_batch(&silent, rate, THRESHOLD).is_none());
    }
    let phrase = p
        .poll_batch(&silent, rate, THRESHOLD)
        .expect("sustained silence must finalize the phrase");
    assert_eq!(phrase, voiced);
}

#[test]
fn downmix_averages_frames_to_mono() {
    assert_eq!(downmix_to_mono(&vec![10, 20, 30, 40], 2), vec![15, 35]);
    assert_eq!(downmix_to_mono(&vec![1, 2, 3, 4, 5, 6], 3), vec![2, 5]);
    assert_eq!(downmix_to_mono(&vec![7, 8], 1), vec![7, 8]);
    assert_eq!(downmix_to_mono(&Vec::new(), 2), Vec::<i16>::new());
}

#[test]
fn downmix_truncates_toward_zero_and_pads_last_frame() {
    // -31 / 2 truncates to -15, as Rust's integer division does.
    assert_eq!(downmix_to_mono(&vec![-10, -21], 2), vec![-15]);
    // a trailing incomplete frame is still divided by the channel count.
    assert_eq!(downmix_to_mono(&vec![10, 20, 30], 2), vec![15, 15]);
}

#[test]
fn default_settings_match_the_documented_configuration() {
    let s = Settings::default();
    assert_eq!(s.api_url, "https://api.openai.com/v1/audio/transcriptions");
    assert_eq!(s.api_key, "");
    assert_eq!(s.silence_threshold, 98);
    assert_eq!(s.language, "ko");
    assert_eq!(s.chat_api_url, "https://api.openai.com/v1/chat/completions");
    assert_eq!(s.chat_api_key, "");
    assert_eq!(s.chat_model, "gpt-4o");
    assert_eq!(s.target_language, "en");
    assert!(matches!(s.display_mode, DisplayMode::TranslationOnly));
    assert_eq!(s.input_device, "");
}
