use livecaptran::segmenter::{batch_energy, is_voiced, Segmenter};
use livecaptran::{MAX_PHRASE_SECS, SILENCE_CHUNKS_TO_END};

// Threshold 98 corresponds to an RMS amplitude of about 0.003 of full
// scale; amplitude 328 to about 0.01; amplitude 3 to about 0.0001.
const THRESHOLD: u32 = 98;

fn constant_batch(value: i16, len: usize) -> Vec<i16> {
    vec![value; len]
}

#[test]
fn energy_of_empty_batch_is_zero() {
    assert_eq!(batch_energy(&Vec::new()), 0);
}

#[test]
fn energy_sums_squares() {
    assert_eq!(batch_energy(&vec![3, -4, 5]), 9 + 16 + 25);
}

#[test]
fn voiced_decision_is_strict_rms_comparison() {
    // rms == threshold exactly: not voiced.
    assert!(!is_voiced(&constant_batch(98, 160), THRESHOLD));
    // rms just above the threshold: voiced.
    assert!(is_voiced(&constant_batch(99, 160), THRESHOLD));
    // silence stays silent.
    assert!(!is_voiced(&constant_batch(3, 160), THRESHOLD));
    // an empty batch has zero energy and is never voiced.
    assert!(!is_voiced(&Vec::new(), THRESHOLD));
}

#[test]
fn idle_silent_batch_stays_idle() {
    let mut seg = Segmenter::new();
    let silent = constant_batch(3, 160);
    for _ in 0..20 {
        let emitted = seg.poll(&silent, 16000, THRESHOLD);
        assert!(emitted.is_none());
        assert!(!seg.speaking);
        assert_eq!(seg.phrase.len(), 0);
        assert_eq!(seg.silence_count, 0);
    }
}

#[test]
fn idle_voiced_batch_starts_phrase_with_that_batch() {
    let mut seg = Segmenter::new();
    let voiced = constant_batch(328, 160);
    let emitted = seg.poll(&voiced, 16000, THRESHOLD);
    assert!(emitted.is_none());
    assert!(seg.speaking);
    assert_eq!(seg.phrase, voiced);
    assert_eq!(seg.silence_count, 0);
}

#[test]
fn silence_run_scenario_finalizes_on_tenth_silent_batch() {
    // threshold 0.003 of full scale; batch 1 at rms 0.01 is voiced, the
    // following batches at rms 0.0001 are silent. No finalize happens
    // until the 10th consecutive silent batch; the finalize then trims
    // the 10 trailing silent batches.
    assert_eq!(SILENCE_CHUNKS_TO_END, 10);
    let rate = 16000;
    let batch_len = 8001;
    let mut seg = Segmenter::new();
    let voiced = constant_batch(328, batch_len);
    let silent = constant_batch(3, batch_len);

    assert!(seg.poll(&voiced, rate, THRESHOLD).is_none());
    assert!(seg.speaking);

    for i in 1..10 {
        let emitted = seg.poll(&silent, rate, THRESHOLD);
        assert!(emitted.is_none(), "finalized early on silent batch {i}");
        assert!(seg.speaking);
        assert_eq!(seg.silence_count, i);
    }

    let emitted = seg.poll(&silent, rate, THRESHOLD);
    let phrase = emitted.expect("10th consecutive silent batch must finalize");
    // 11 batches accumulated, the 10 trailing silent ones trimmed off.
    assert_eq!(phrase.len(), 11 * batch_len - 10 * batch_len);
    assert_eq!(phrase, voiced);
    assert!(!seg.speaking);
    assert_eq!(seg.phrase.len(), 0);
    assert_eq!(seg.silence_count, 0);
}

#[test]
fn voiced_batch_resets_silence_run() {
    let mut seg = Segmenter::new();
    let voiced = constant_batch(328, 160);
    let silent = constant_batch(3, 160);
    seg.poll(&voiced, 16000, THRESHOLD);
    for _ in 0..9 {
        assert!(seg.poll(&silent, 16000, THRESHOLD).is_none());
    }
    assert_eq!(seg.silence_count, 9);
    seg.poll(&voiced, 16000, THRESHOLD);
    assert_eq!(seg.silence_count, 0);
    assert!(seg.speaking);
}

#[test]
fn phrase_longer_than_cap_forces_finalize() {
    // rate 100: the cap is 100 * MAX_PHRASE_SECS = 3000 samples.
    let rate = 100;
    let cap = rate as usize * MAX_PHRASE_SECS;
    let batch_len = 400;
    let mut seg = Segmenter::new();
    let voiced = constant_batch(328, batch_len);
    let mut polls = 0;
    let emitted = loop {
        let emitted = seg.poll(&voiced, rate, THRESHOLD);
        polls += 1;
        assert!(
            seg.phrase.len() <= cap,
            "accumulator exceeded the cap without a forced finalize"
        );
        if let Some(p) = emitted {
            break p;
        }
        assert!(polls <= 100, "no forced finalize");
    };
    // 8 batches of 400 samples exceed 3000; nothing is trimmed because
    // every batch was voiced.
    assert_eq!(polls, 8);
    assert_eq!(emitted.len(), 8 * batch_len);
    assert!(!seg.speaking);
    assert_eq!(seg.phrase.len(), 0);
}

#[test]
fn trimmed_phrase_shorter_than_half_second_is_discarded() {
    let rate = 16000;
    let batch_len = 100;
    let mut seg = Segmenter::new();
    let voiced = constant_batch(328, batch_len);
    let silent = constant_batch(3, batch_len);
    assert!(seg.poll(&voiced, rate, THRESHOLD).is_none());
    for _ in 0..10 {
        let emitted = seg.poll(&silent, rate, THRESHOLD);
        // after trimming the 10 silent batches only 100 samples remain,
        // well under rate / 2 = 8000: the phrase is dropped silently.
        assert!(emitted.is_none());
    }
    assert!(!seg.speaking);
    assert_eq!(seg.phrase.len(), 0);
}

#[test]
fn reset_returns_to_idle() {
    let mut seg = Segmenter::new();
    let voiced = constant_batch(328, 160);
    seg.poll(&voiced, 16000, THRESHOLD);
    assert!(seg.speaking);
    seg.reset();
    assert!(!seg.speaking);
    assert_eq!(seg.phrase.len(), 0);
    assert_eq!(seg.silence_count, 0);
}
