use livecaptran::dispatch::{
    build_translation_body, compose_display, format_log_record, transcript_of_response,
    translation_of_response,
};
use livecaptran::history::TranslationHistory;
use livecaptran::settings::DisplayMode;

#[test]
fn transcript_text_field_is_extracted_and_trimmed() {
    let r = transcript_of_response("{\"text\": \"  hello world \\n\"}");
    assert_eq!(r.as_deref(), Some("hello world"));
}

#[test]
fn unicode_whitespace_is_trimmed_too() {
    let r = transcript_of_response("{\"text\": \"\u{3000}hello\u{a0}\"}");
    assert_eq!(r.as_deref(), Some("hello"));
}

#[test]
fn whitespace_only_transcript_is_no_result() {
    assert_eq!(transcript_of_response("{\"text\": \"  \"}"), None);
}

#[test]
fn malformed_transcription_responses_are_no_result() {
    assert_eq!(transcript_of_response(""), None);
    assert_eq!(transcript_of_response("not json"), None);
    assert_eq!(transcript_of_response("{}"), None);
    assert_eq!(transcript_of_response("{\"text\": 3}"), None);
    assert_eq!(transcript_of_response("{\"other\": \"hi\"}"), None);
}

#[test]
fn translation_content_is_extracted_and_trimmed() {
    let body = "{\"choices\":[{\"message\":{\"role\":\"assistant\",\"content\":\" bonjour \"}}]}";
    assert_eq!(translation_of_response(body).as_deref(), Some("bonjour"));
}

#[test]
fn malformed_translation_responses_are_no_translation() {
    assert_eq!(translation_of_response(""), None);
    assert_eq!(translation_of_response("{\"choices\":[]}"), None);
    assert_eq!(translation_of_response("{\"choices\":[{\"message\":{}}]}"), None);
    assert_eq!(
        translation_of_response("{\"choices\":[{\"message\":{\"content\":\"   \"}}]}"),
        None
    );
}

#[test]
fn translation_body_is_valid_json_with_context_in_order() {
    let mut history = TranslationHistory::new();
    history.push("one".to_string(), "un".to_string());
    history.push("two".to_string(), "deux".to_string());
    let body = build_translation_body("gpt-4o", "French", &history, "three");

    let v: serde_json::Value = serde_json::from_str(&body).expect("body must be valid JSON");
    assert_eq!(v["model"].as_str(), Some("gpt-4o"));
    let messages = v["messages"].as_array().expect("messages array");
    assert_eq!(messages.len(), 2 + 2 * 2);
    assert_eq!(messages[0]["role"].as_str(), Some("system"));
    let prompt = messages[0]["content"].as_str().unwrap();
    assert!(prompt.contains("Translate the following spoken text into French."));
    assert_eq!(messages[1]["role"].as_str(), Some("user"));
    assert_eq!(messages[1]["content"].as_str(), Some("one"));
    assert_eq!(messages[2]["role"].as_str(), Some("assistant"));
    assert_eq!(messages[2]["content"].as_str(), Some("un"));
    assert_eq!(messages[3]["content"].as_str(), Some("two"));
    assert_eq!(messages[4]["content"].as_str(), Some("deux"));
    assert_eq!(messages[5]["role"].as_str(), Some("user"));
    assert_eq!(messages[5]["content"].as_str(), Some("three"));
}

#[test]
fn translation_body_escapes_special_characters() {
    let history = TranslationHistory::new();
    let body = build_translation_body("m", "en", &history, "he said \"hi\"\nthen left");
    let v: serde_json::Value = serde_json::from_str(&body).expect("body must be valid JSON");
    let messages = v["messages"].as_array().unwrap();
    assert_eq!(
        messages[1]["content"].as_str(),
        Some("he said \"hi\"\nthen left")
    );
}

#[test]
fn fourth_translation_evicts_oldest_pair_from_context() {
    let mut history = TranslationHistory::new();
    history.push("first original".to_string(), "first translated".to_string());
    history.push("second original".to_string(), "second translated".to_string());
    history.push("third original".to_string(), "third translated".to_string());
    assert_eq!(history.len(), 3);
    history.push("fourth original".to_string(), "fourth translated".to_string());
    assert_eq!(history.len(), 3);

    let body = build_translation_body("m", "en", &history, "next phrase");
    assert!(!body.contains("first original"));
    assert!(!body.contains("first translated"));
    assert!(body.contains("second original"));
    assert!(body.contains("third translated"));
    assert!(body.contains("fourth original"));
}

#[test]
fn display_mode_both_shows_original_then_translation() {
    let r = compose_display(
        DisplayMode::Both,
        "hello",
        &Some("bonjour".to_string()),
    );
    assert_eq!(r, "hello\nbonjour");
}

#[test]
fn display_mode_translation_only_shows_translation() {
    let r = compose_display(
        DisplayMode::TranslationOnly,
        "hello",
        &Some("bonjour".to_string()),
    );
    assert_eq!(r, "bonjour");
}

#[test]
fn display_falls_back_to_original_without_translation() {
    assert_eq!(compose_display(DisplayMode::TranslationOnly, "hello", &None), "hello");
    assert_eq!(compose_display(DisplayMode::Both, "hello", &None), "hello");
}

#[test]
fn log_record_has_timestamped_lines_and_separator() {
    let with_translation = format_log_record(
        "2024-01-02 03:04:05",
        "hello",
        &Some("bonjour".to_string()),
    );
    assert_eq!(
        with_translation,
        "[2024-01-02 03:04:05] hello\n[2024-01-02 03:04:05] bonjour\n---\n"
    );
    let without = format_log_record("2024-01-02 03:04:05", "hello", &None);
    assert_eq!(without, "[2024-01-02 03:04:05] hello\n---\n");
}
