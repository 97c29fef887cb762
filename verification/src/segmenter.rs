//! Voice-activity detection and phrase segmentation.
//!
//! A batch of mono 16-bit samples is classified as voiced or silent by
//! comparing its energy against a threshold, and the [`Segmenter`] state
//! machine turns the resulting stream of voiced/silent batches into
//! finalized phrases: a phrase starts at the first voiced batch, ends after
//! a sustained run of silent batches or when a duration cap is hit, and the
//! trailing silent batches are trimmed off before the phrase is emitted.

use vstd::prelude::*;
use vstd::arithmetic::mul::lemma_mul_inequality;
use crate::{SILENCE_CHUNKS_TO_END, MAX_PHRASE_SECS, FULL_SCALE};

verus! {

/// Energy of a batch: the sum of the squared sample amplitudes.
///
/// The root-mean-square of a batch exceeds a threshold `t` exactly when the
/// energy exceeds `t * t * len`, so all voicing decisions are phrased over
/// this sum and no square root is ever needed.
pub open spec fn energy(batch: Seq<i16>) -> int
    decreases batch.len(),
{
    if batch.len() == 0 {
        0
    } else {
        energy(batch.drop_last()) + batch.last() * batch.last()
    }
}

/// A batch is voiced when its root-mean-square amplitude strictly exceeds
/// the threshold, i.e. when `energy > threshold^2 * len`. The threshold is
/// a fixed-point amplitude on the scale where `FULL_SCALE` is 1.0.
pub open spec fn voiced(batch: Seq<i16>, threshold: u32) -> bool {
    energy(batch) > threshold * threshold * batch.len()
}

pub proof fn lemma_energy_bounds(batch: Seq<i16>)
    ensures
        0 <= energy(batch) <= batch.len() * 0x4000_0000,
    decreases batch.len(),
{
    if batch.len() > 0 {
        lemma_energy_bounds(batch.drop_last());
        let s = batch.last();
        assert(s * s <= 0x4000_0000) by (nonlinear_arith)
            requires
                -0x8000 <= s <= 0x7fff,
        ;
        assert(s * s >= 0) by (nonlinear_arith);
    }
}

proof fn lemma_energy_prefix_step(s: Seq<i16>, i: int)
    requires
        0 <= i < s.len(),
    ensures
        energy(s.subrange(0, i + 1)) == energy(s.subrange(0, i)) + s[i] * s[i],
{
    let p = s.subrange(0, i + 1);
    assert(p.drop_last() =~= s.subrange(0, i));
    assert(p.last() == s[i]);
}

/// Computes the energy (sum of squared amplitudes) of a batch.
pub fn batch_energy(batch: &Vec<i16>) -> (e: u128)
    ensures
        e == energy(batch@),
{
    let n = batch.len();
    let mut acc: u128 = 0;
    for i in 0..n
        invariant
            n == batch@.len(),
            acc == energy(batch@.subrange(0, i as int)),
            acc <= i * 0x4000_0000,
    {
        let s64 = batch[i] as i64;
        proof {
            assert(s64 * s64 <= 0x4000_0000 && s64 * s64 >= 0) by (nonlinear_arith)
                requires
                    -0x8000 <= s64 <= 0x7fff,
            ;
            lemma_mul_inequality(i + 1, n as int, 0x4000_0000);
            lemma_energy_prefix_step(batch@, i as int);
        }
        let sq = s64 * s64;
        acc = acc + (sq as u128);
    }
    proof {
        assert(batch@.subrange(0, n as int) =~= batch@);
    }
    acc
}

/// Decides whether a batch counts as voiced for the given threshold.
pub fn is_voiced(batch: &Vec<i16>, threshold: u32) -> (b: bool)
    requires
        threshold <= FULL_SCALE,
    ensures
        b == voiced(batch@, threshold),
{
    let e = batch_energy(batch);
    let t = threshold as u128;
    let n = batch.len();
    proof {
        assert(t * t <= 0x4000_0000) by (nonlinear_arith)
            requires
                t <= 0x8000,
        ;
        lemma_energy_bounds(batch@);
        assert((t * t) * (n as int) <= 0x4000_0000 * (u64::MAX as int)) by (nonlinear_arith)
            requires
                t * t <= 0x4000_0000,
                0 <= n <= u64::MAX,
        ;
    }
    let rhs = (t * t) * (n as u128);
    e > rhs
}

/// Ghost model of the segmenter state: whether speech is in progress, the
/// accumulated phrase samples, and the count of consecutive silent polls.
pub ghost struct SegView {
    pub speaking: bool,
    pub phrase: Seq<i16>,
    pub silence: nat,
}

impl SegView {
    /// Well-formedness: an idle segmenter holds no samples and no silence
    /// run, and a silence run long enough to finalize never persists.
    pub open spec fn inv(self) -> bool {
        &&& !self.speaking ==> self.phrase.len() == 0 && self.silence == 0
        &&& self.silence < SILENCE_CHUNKS_TO_END
    }

    /// The state of a freshly created or reset segmenter.
    pub open spec fn idle() -> SegView {
        SegView { speaking: false, phrase: Seq::empty(), silence: 0 }
    }
}

/// Result of feeding one batch: the successor state and the finalized
/// phrase, if this batch completed one.
pub ghost struct SegStep {
    pub state: SegView,
    pub emitted: Option<Seq<i16>>,
}

/// One polling cycle of the segmenter on a non-empty batch.
///
/// Idle: a voiced batch starts a phrase with exactly this batch; a silent
/// batch is discarded. Speaking: the batch is always accumulated, the
/// silence run is extended or reset, and the phrase is finalized once the
/// silence run reaches `SILENCE_CHUNKS_TO_END` or the accumulated length
/// exceeds `rate * MAX_PHRASE_SECS` samples. On finalize the trailing
/// silent batches are trimmed off (`silence * batch len` samples) and the
/// remainder is emitted only if it is longer than half a second of audio.
pub open spec fn seg_step(s: SegView, batch: Seq<i16>, rate: u32, threshold: u32) -> SegStep {
    if !s.speaking {
        if voiced(batch, threshold) {
            SegStep { state: SegView { speaking: true, phrase: batch, silence: 0 }, emitted: None }
        } else {
            SegStep { state: s, emitted: None }
        }
    } else {
        let phrase2 = s.phrase + batch;
        let silence2: nat = if voiced(batch, threshold) { 0 } else { s.silence + 1 };
        if silence2 >= SILENCE_CHUNKS_TO_END || phrase2.len() > rate * MAX_PHRASE_SECS {
            let trim = silence2 * batch.len();
            let end: int = if phrase2.len() >= trim { phrase2.len() - trim } else { 0 };
            SegStep {
                state: SegView::idle(),
                emitted: if end > rate / 2 {
                    Some(phrase2.subrange(0, end))
                } else {
                    None
                },
            }
        } else {
            SegStep {
                state: SegView { speaking: true, phrase: phrase2, silence: silence2 },
                emitted: None,
            }
        }
    }
}


/// While idle, a silent batch leaves the segmenter idle and unchanged, and
/// a voiced batch starts accumulation with exactly that batch; neither poll
/// emits a phrase.
pub proof fn lemma_idle_transitions(s: SegView, batch: Seq<i16>, rate: u32, threshold: u32)
    requires
        s.inv(),
        !s.speaking,
    ensures
        !voiced(batch, threshold) ==> (seg_step(s, batch, rate, threshold) == SegStep {
            state: s,
            emitted: None::<Seq<i16>>,
        }),
        voiced(batch, threshold) ==> (seg_step(s, batch, rate, threshold) == SegStep {
            state: SegView { speaking: true, phrase: batch, silence: 0 },
            emitted: None::<Seq<i16>>,
        }),
{
}

/// During speech, a run of consecutive silent batches finalizes the phrase
/// exactly when the run reaches `SILENCE_CHUNKS_TO_END` polls, and not
/// before (as long as the duration cap is not hit).
pub proof fn lemma_silence_run_finalizes(s: SegView, batch: Seq<i16>, rate: u32, threshold: u32)
    requires
        s.inv(),
        s.speaking,
        !voiced(batch, threshold),
        s.phrase.len() + batch.len() <= rate * MAX_PHRASE_SECS,
    ensures
        s.silence + 1 == SILENCE_CHUNKS_TO_END ==> !seg_step(
            s,
            batch,
            rate,
            threshold,
        ).state.speaking,
        s.silence + 1 < SILENCE_CHUNKS_TO_END ==> (seg_step(s, batch, rate, threshold) == SegStep {
            state: SegView { speaking: true, phrase: s.phrase + batch, silence: s.silence + 1 },
            emitted: None::<Seq<i16>>,
        }),
{
}

/// The accumulated phrase never exceeds `rate * MAX_PHRASE_SECS` samples
/// after a poll: any batch that pushes it past the cap forces a finalize,
/// which empties the accumulator. (A single batch longer than the whole cap
/// starts a phrase that already exceeds it, so batches are assumed to be no
/// longer than the cap.)
pub proof fn lemma_phrase_length_capped(s: SegView, batch: Seq<i16>, rate: u32, threshold: u32)
    requires
        s.inv(),
        batch.len() <= rate * MAX_PHRASE_SECS,
    ensures
        seg_step(s, batch, rate, threshold).state.phrase.len() <= rate * MAX_PHRASE_SECS,
{
}

/// A finalized phrase shorter than half a second (`rate / 2` samples after
/// trimming) is discarded: whenever a phrase is emitted at all, it is
/// longer than `rate / 2` samples.
pub proof fn lemma_emitted_phrase_long(s: SegView, batch: Seq<i16>, rate: u32, threshold: u32)
    ensures
        (seg_step(s, batch, rate, threshold).emitted matches Some(p) ==> p.len() > rate / 2),
{
}

/// Feeding a batch through [`seg_step`] preserves well-formedness.
pub proof fn lemma_step_preserves_inv(s: SegView, batch: Seq<i16>, rate: u32, threshold: u32)
    requires
        s.inv(),
    ensures
        seg_step(s, batch, rate, threshold).state.inv(),
{
}

/// The phrase segmentation state machine.
pub struct Segmenter {
    pub speaking: bool,
    pub phrase: Vec<i16>,
    pub silence_count: usize,
}

impl View for Segmenter {
    type V = SegView;

    open spec fn view(&self) -> SegView {
        SegView {
            speaking: self.speaking,
            phrase: self.phrase@,
            silence: self.silence_count as nat,
        }
    }
}

impl Segmenter {
    pub open spec fn wf(self) -> bool {
        self@.inv()
    }

    /// A new segmenter starts idle with an empty accumulator.
    pub fn new() -> (s: Segmenter)
        ensures
            s.wf(),
            s@ == SegView::idle(),
    {
        Segmenter { speaking: false, phrase: Vec::new(), silence_count: 0 }
    }

    /// Returns to the idle state, dropping any accumulated samples; used on
    /// both session edges.
    pub fn reset(&mut self)
        ensures
            final(self).wf(),
            final(self)@ == SegView::idle(),
    {
        self.speaking = false;
        self.silence_count = 0;
        self.phrase.clear();
    }

    /// Feeds one non-empty batch through the state machine, returning the
    /// finalized phrase when this batch completed one, exactly as
    /// [`seg_step`] describes.
    pub fn poll(&mut self, batch: &Vec<i16>, rate: u32, threshold: u32) -> (emitted: Option<
        Vec<i16>,
    >)
        requires
            old(self).wf(),
            batch@.len() > 0,
            rate > 0,
            threshold <= FULL_SCALE,
        ensures
            final(self).wf(),
            final(self)@ == seg_step(old(self)@, batch@, rate, threshold).state,
            (match emitted {
                Some(v) => seg_step(old(self)@, batch@, rate, threshold).emitted == Some(v@),
                None => seg_step(old(self)@, batch@, rate, threshold).emitted is None,
            }),
            final(self)@.phrase.len() <= old(self)@.phrase.len() + batch@.len(),
    {
        let is_voice = is_voiced(batch, threshold);
        if self.speaking {
            let ghost phrase0 = self.phrase@;
            self.phrase.extend_from_slice(batch.as_slice());
            proof {
                assert(self.phrase@ =~= phrase0 + batch@);
            }
            if is_voice {
                self.silence_count = 0;
            } else {
                self.silence_count = self.silence_count + 1;
            }
            let too_long = (self.phrase.len() as u64) > (rate as u64) * (MAX_PHRASE_SECS as u64);
            if self.silence_count >= SILENCE_CHUNKS_TO_END || too_long {
                proof {
                    lemma_mul_inequality(
                        self.silence_count as int,
                        SILENCE_CHUNKS_TO_END as int,
                        batch@.len() as int,
                    );
                }
                let trim = (self.silence_count as u128) * (batch.len() as u128);
                let end = if (self.phrase.len() as u128) >= trim {
                    self.phrase.len() - (trim as usize)
                } else {
                    0
                };
                let mut out: Vec<i16> = Vec::new();
                core::mem::swap(&mut out, &mut self.phrase);
                out.truncate(end);
                self.speaking = false;
                self.silence_count = 0;
                if end > (rate / 2) as usize {
                    Some(out)
                } else {
                    None
                }
            } else {
                None
            }
        } else {
            if is_voice {
                self.speaking = true;
                self.silence_count = 0;
                self.phrase.clear();
                self.phrase.extend_from_slice(batch.as_slice());
                proof {
                    assert(self.phrase@ =~= batch@);
                }
                None
            } else {
                None
            }
        }
    }
}

} // verus!
