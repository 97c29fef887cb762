//! Orchestration of a finalized phrase: cleaning the transcription and
//! translation responses, building the translation request body with the
//! bounded rolling context, composing the display string, and formatting
//! the session log record.
//!
//! The two network calls themselves are the caller's: this module only
//! turns response bodies into results and inputs into request bodies.

use vstd::prelude::*;
use vstd::string::StringExecFns;
use crate::history::TranslationHistory;
use crate::settings::DisplayMode;
use crate::text::{trim_text, trimmed};

verus! {

/// The view of an optional text result.
pub open spec fn opt_view(r: Option<String>) -> Option<Seq<char>> {
    match r {
        Some(t) => Some(t@),
        None => None,
    }
}

/// What the transcription service's response body carries in its `text`
/// field, when it parses as JSON with a string there.
pub uninterp spec fn text_field_of(body: Seq<char>) -> Option<Seq<char>>;

/// What the translation service's response body carries under
/// `choices[0].message.content`, when it parses as JSON with a string
/// there.
pub uninterp spec fn chat_content_of(body: Seq<char>) -> Option<Seq<char>>;

/// The JSON string literal (quoted and escaped) encoding a text.
pub uninterp spec fn json_str_of(text: Seq<char>) -> Seq<char>;

/// Relies on serde_json::from_str and serde_json::Value::as_str: yields
/// the `text` field of the body when the body parses as JSON and that
/// field holds a string, and nothing otherwise; a function of the body
/// text alone.
#[verifier::external_body]
fn extract_text_field(body: &str) -> (r: Option<String>)
    ensures
        opt_view(r) == text_field_of(body@),
{
    match serde_json::from_str::<serde_json::Value>(body) {
        Ok(v) => v["text"].as_str().map(|t| t.to_string()),
        Err(_) => None,
    }
}

/// Relies on serde_json::from_str and serde_json::Value::as_str: yields
/// the string under `choices[0].message.content` when the body parses as
/// JSON with a string there, and nothing otherwise; a function of the
/// body text alone.
#[verifier::external_body]
fn extract_chat_content(body: &str) -> (r: Option<String>)
    ensures
        opt_view(r) == chat_content_of(body@),
{
    match serde_json::from_str::<serde_json::Value>(body) {
        Ok(v) => v["choices"][0]["message"]["content"].as_str().map(|t| t.to_string()),
        Err(_) => None,
    }
}

/// Relies on serde_json's Display for Value: prints a string value as its
/// JSON literal, quoted and escaped; a function of the text alone.
#[verifier::external_body]
fn json_string(text: &str) -> (r: String)
    ensures
        r@ == json_str_of(text@),
{
    serde_json::Value::String(text.to_string()).to_string()
}

/// An extracted text after cleanup: trimmed of surrounding whitespace, and
/// dropped entirely when nothing remains.
pub open spec fn cleaned(t: Option<Seq<char>>) -> Option<Seq<char>> {
    match t {
        Some(x) => if trimmed(x).len() == 0 {
            None
        } else {
            Some(trimmed(x))
        },
        None => None,
    }
}

/// The transcript carried by a transcription response body: its `text`
/// field, trimmed; a missing field, a non-string field, an unparsable
/// body, and a whitespace-only text all yield nothing.
pub fn transcript_of_response(body: &str) -> (r: Option<String>)
    ensures
        opt_view(r) == cleaned(text_field_of(body@)),
{
    match extract_text_field(body) {
        Some(t) => {
            let c = trim_text(t.as_str());
            if c.as_str().is_empty() {
                None
            } else {
                Some(c)
            }
        },
        None => None,
    }
}

/// The translated text carried by a translation response body: the string
/// under `choices[0].message.content`, trimmed; anything else yields
/// nothing, and the phrase then falls back to transcript-only display.
pub fn translation_of_response(body: &str) -> (r: Option<String>)
    ensures
        opt_view(r) == cleaned(chat_content_of(body@)),
{
    match extract_chat_content(body) {
        Some(t) => {
            let c = trim_text(t.as_str());
            if c.as_str().is_empty() {
                None
            } else {
                Some(c)
            }
        },
        None => None,
    }
}

/// The system instruction sent with every translation request: translate
/// into the target language, keep terminology, output one translation and
/// nothing else.
pub open spec fn system_prompt(target: Seq<char>) -> Seq<char> {
    "You are a real-time translator for a scientific presentation. Translate the following spoken text into "@
        + target
        + ". Preserve technical and scientific terminology accurately. Output only a single, most probable translation. Print only the translated text and absolutely nothing else\u{2014}no alternatives, no explanations, no notes, no quotation marks."@
}

/// A `user` turn holding the given JSON-encoded content.
pub open spec fn user_msg(content_json: Seq<char>) -> Seq<char> {
    "{\"role\":\"user\",\"content\":"@ + content_json + "}"@
}

/// An `assistant` turn holding the given JSON-encoded content.
pub open spec fn assistant_msg(content_json: Seq<char>) -> Seq<char> {
    "{\"role\":\"assistant\",\"content\":"@ + content_json + "}"@
}

/// The context turns for the rolling history: for each (original,
/// translated) pair in order, a `user` turn with the original and an
/// `assistant` turn with the translation, each preceded by a separator.
pub open spec fn context_msgs(h: Seq<(Seq<char>, Seq<char>)>) -> Seq<char>
    decreases h.len(),
{
    if h.len() == 0 {
        Seq::empty()
    } else {
        context_msgs(h.drop_last()) + ","@ + user_msg(json_str_of(h.last().0)) + ","@
            + assistant_msg(json_str_of(h.last().1))
    }
}

/// The whole translation request body: the model, then the message list
/// holding the system instruction, the context turns in chronological
/// order, and the new `user` turn with the transcript.
pub open spec fn translation_body(
    model: Seq<char>,
    target: Seq<char>,
    h: Seq<(Seq<char>, Seq<char>)>,
    text: Seq<char>,
) -> Seq<char> {
    "{\"model\":"@ + json_str_of(model) + ",\"messages\":[{\"role\":\"system\",\"content\":"@
        + json_str_of(system_prompt(target)) + "}"@ + context_msgs(h) + ","@ + user_msg(
        json_str_of(text),
    ) + "]}"@
}

proof fn lemma_context_msgs_prefix_step(h: Seq<(Seq<char>, Seq<char>)>, i: int)
    requires
        0 <= i < h.len(),
    ensures
        context_msgs(h.subrange(0, i + 1)) == context_msgs(h.subrange(0, i)) + ","@ + user_msg(
            json_str_of(h[i].0),
        ) + ","@ + assistant_msg(json_str_of(h[i].1)),
{
    let p = h.subrange(0, i + 1);
    assert(p.drop_last() =~= h.subrange(0, i));
    assert(p.last() == h[i]);
}

/// Builds the translation request body for a transcript, with the rolling
/// history as conversational context.
pub fn build_translation_body(
    model: &str,
    target_language: &str,
    history: &TranslationHistory,
    text: &str,
) -> (r: String)
    ensures
        r@ == translation_body(model@, target_language@, history@, text@),
{
    let mut prompt = String::new();
    prompt.append(
        "You are a real-time translator for a scientific presentation. Translate the following spoken text into ",
    );
    prompt.append(target_language);
    prompt.append(
        ". Preserve technical and scientific terminology accurately. Output only a single, most probable translation. Print only the translated text and absolutely nothing else\u{2014}no alternatives, no explanations, no notes, no quotation marks.",
    );
    proof {
        assert(prompt@ =~= system_prompt(target_language@));
    }

    let mut body = String::new();
    body.append("{\"model\":");
    let model_json = json_string(model);
    body.append(model_json.as_str());
    body.append(",\"messages\":[{\"role\":\"system\",\"content\":");
    let prompt_json = json_string(prompt.as_str());
    body.append(prompt_json.as_str());
    body.append("}");
    let ghost head = body@;
    let n = history.len();
    proof {
        assert(history@.subrange(0, 0) =~= Seq::<(Seq<char>, Seq<char>)>::empty());
        assert(body@ =~= head + context_msgs(history@.subrange(0, 0)));
    }
    for i in 0..n
        invariant
            n == history@.len(),
            body@ == head + context_msgs(history@.subrange(0, i as int)),
    {
        proof {
            lemma_context_msgs_prefix_step(history@, i as int);
        }
        let (orig, trans) = history.get(i);
        body.append(",");
        body.append("{\"role\":\"user\",\"content\":");
        let orig_json = json_string(orig.as_str());
        body.append(orig_json.as_str());
        body.append("}");
        body.append(",");
        body.append("{\"role\":\"assistant\",\"content\":");
        let trans_json = json_string(trans.as_str());
        body.append(trans_json.as_str());
        body.append("}");
        proof {
            assert(body@ =~= head + context_msgs(history@.subrange(0, i as int + 1)));
        }
    }
    proof {
        assert(history@.subrange(0, n as int) =~= history@);
    }
    body.append(",");
    body.append("{\"role\":\"user\",\"content\":");
    let text_json = json_string(text);
    body.append(text_json.as_str());
    body.append("}");
    body.append("]}");
    proof {
        assert(body@ =~= translation_body(model@, target_language@, history@, text@));
    }
    body
}

/// The published display string: with a translation, either the
/// translation alone or the original followed by the translation on a new
/// line, by display mode; without one, the original alone.
pub open spec fn display_string(
    mode: DisplayMode,
    original: Seq<char>,
    translated: Option<Seq<char>>,
) -> Seq<char> {
    match translated {
        Some(t) => if mode is TranslationOnly {
            t
        } else {
            original + "\n"@ + t
        },
        None => original,
    }
}

/// Composes the string to publish for a finalized phrase.
pub fn compose_display(mode: DisplayMode, original: &str, translated: &Option<String>) -> (r:
    String)
    ensures
        r@ == display_string(
            mode,
            original@,
            match translated {
                Some(t) => Some(t@),
                None => None,
            },
        ),
{
    match translated {
        Some(t) => {
            match mode {
                DisplayMode::TranslationOnly => t.clone(),
                DisplayMode::Both => {
                    let mut r = original.to_owned();
                    r.append("\n");
                    r.append(t.as_str());
                    r
                },
            }
        },
        None => original.to_owned(),
    }
}

/// The session log record for a finalized phrase: a timestamped line with
/// the original text, a second timestamped line with the translation when
/// one exists, and a separator line.
pub open spec fn log_record(
    ts: Seq<char>,
    original: Seq<char>,
    translated: Option<Seq<char>>,
) -> Seq<char> {
    let first = "["@ + ts + "] "@ + original + "\n"@;
    let second = match translated {
        Some(t) => "["@ + ts + "] "@ + t + "\n"@,
        None => Seq::<char>::empty(),
    };
    first + second + "---\n"@
}

/// Formats the session log record for a finalized phrase.
pub fn format_log_record(ts: &str, original: &str, translated: &Option<String>) -> (r: String)
    ensures
        r@ == log_record(
            ts@,
            original@,
            match translated {
                Some(t) => Some(t@),
                None => None,
            },
        ),
{
    let mut r = String::new();
    r.append("[");
    r.append(ts);
    r.append("] ");
    r.append(original);
    r.append("\n");
    match translated {
        Some(t) => {
            r.append("[");
            r.append(ts);
            r.append("] ");
            r.append(t.as_str());
            r.append("\n");
        },
        None => {},
    }
    r.append("---\n");
    r
}

} // verus!
