//! The whole pipeline state owned by the segmentation/dispatch loop: the
//! segmenter, the rolling translation history, the published display
//! string, and the observed session-active flag, with the edge-triggered
//! session transitions and the per-phrase completion step.

use vstd::prelude::*;
use crate::FULL_SCALE;
use crate::dispatch::{compose_display, display_string};
use crate::history::{TranslationHistory, MAX_HISTORY};
use crate::segmenter::{seg_step, SegView, Segmenter};
use crate::settings::DisplayMode;

verus! {

/// Ghost model of the pipeline state.
pub ghost struct PipelineView {
    pub seg: SegView,
    pub history: Seq<(Seq<char>, Seq<char>)>,
    pub published: Seq<char>,
    pub active: bool,
}

impl PipelineView {
    /// Well-formedness: the segmenter is well-formed, the history is
    /// bounded, and outside a session nothing is accumulated or shown.
    pub open spec fn inv(self) -> bool {
        &&& self.seg.inv()
        &&& self.history.len() <= MAX_HISTORY
        &&& !self.active ==> self.seg == SegView::idle() && self.published.len() == 0
    }
}

/// Which session edge an observation of the session-active flag produced.
#[derive(Clone, Copy, PartialEq, Eq, Structural, Debug)]
pub enum SessionEdge {
    NoChange,
    Started,
    Stopped,
}

/// Observing the session-active flag: no edge leaves the state alone; a
/// rising edge resets the segmenter; a falling edge resets the segmenter
/// and clears the published display. The translation history persists
/// across session toggles.
pub open spec fn session_step(p: PipelineView, active: bool) -> PipelineView {
    if active == p.active {
        p
    } else if active {
        PipelineView { seg: SegView::idle(), active: true, ..p }
    } else {
        PipelineView { seg: SegView::idle(), published: Seq::empty(), active: false, ..p }
    }
}

/// Whether a polling cycle is skipped outright: no active session, an
/// uninitialized sample rate, or an empty batch.
pub open spec fn poll_skipped(p: PipelineView, batch: Seq<i16>, rate: u32) -> bool {
    !p.active || rate == 0 || batch.len() == 0
}

/// The pipeline state for one capture session stream.
pub struct Pipeline {
    pub seg: Segmenter,
    pub history: TranslationHistory,
    pub published: String,
    pub session_active: bool,
}

impl View for Pipeline {
    type V = PipelineView;

    open spec fn view(&self) -> PipelineView {
        PipelineView {
            seg: self.seg@,
            history: self.history@,
            published: self.published@,
            active: self.session_active,
        }
    }
}

impl Pipeline {
    pub open spec fn wf(self) -> bool {
        &&& self@.inv()
        &&& self.history.wf()
    }

    /// A fresh pipeline: idle, no history, nothing published, no session.
    pub fn new() -> (p: Pipeline)
        ensures
            p.wf(),
            p@ == (PipelineView {
                seg: SegView::idle(),
                history: Seq::<(Seq<char>, Seq<char>)>::empty(),
                published: Seq::<char>::empty(),
                active: false,
            }),
    {
        Pipeline {
            seg: Segmenter::new(),
            history: TranslationHistory::new(),
            published: String::new(),
            session_active: false,
        }
    }

    /// Observes the session-active flag once, performing the edge
    /// transition of [`session_step`] and reporting which edge occurred.
    pub fn set_session_active(&mut self, active: bool) -> (edge: SessionEdge)
        requires
            old(self).wf(),
        ensures
            final(self).wf(),
            final(self)@ == session_step(old(self)@, active),
            edge == (if active == old(self)@.active {
                SessionEdge::NoChange
            } else if active {
                SessionEdge::Started
            } else {
                SessionEdge::Stopped
            }),
    {
        if active == self.session_active {
            SessionEdge::NoChange
        } else if active {
            self.seg.reset();
            self.session_active = true;
            SessionEdge::Started
        } else {
            self.seg.reset();
            self.published = String::new();
            self.session_active = false;
            SessionEdge::Stopped
        }
    }

    /// One polling cycle: skipped (with no state change) outside a
    /// session, before the sample rate is known, or on an empty batch;
    /// otherwise the batch goes through the segmenter and the finalized
    /// phrase, if any, is handed back for dispatch.
    pub fn poll_batch(&mut self, batch: &Vec<i16>, rate: u32, threshold: u32) -> (emitted: Option<
        Vec<i16>,
    >)
        requires
            old(self).wf(),
            threshold <= FULL_SCALE,
        ensures
            final(self).wf(),
            poll_skipped(old(self)@, batch@, rate) ==> final(self)@ == old(self)@ && emitted
                is None,
            !poll_skipped(old(self)@, batch@, rate) ==> {
                &&& final(self)@.seg == seg_step(old(self)@.seg, batch@, rate, threshold).state
                &&& final(self)@.history == old(self)@.history
                &&& final(self)@.published == old(self)@.published
                &&& final(self)@.active == old(self)@.active
                &&& (match emitted {
                    Some(v) => seg_step(old(self)@.seg, batch@, rate, threshold).emitted == Some(
                        v@,
                    ),
                    None => seg_step(old(self)@.seg, batch@, rate, threshold).emitted is None,
                })
            },
    {
        if !self.session_active || rate == 0 || batch.len() == 0 {
            return None;
        }
        self.seg.poll(batch, rate, threshold)
    }

    /// Completes a dispatched phrase: on a successful translation the
    /// (original, translated) pair joins the rolling history (evicting the
    /// oldest pair when full), and the display string composed from the
    /// display mode replaces the published result.
    pub fn finish_phrase(&mut self, original: &String, translated: Option<String>,
        mode: DisplayMode)
        requires
            old(self).wf(),
            old(self)@.active,
        ensures
            final(self).wf(),
            final(self)@.seg == old(self)@.seg,
            final(self)@.active == old(self)@.active,
            final(self)@.published == display_string(
                mode,
                original@,
                match translated {
                    Some(t) => Some(t@),
                    None => None,
                },
            ),
            final(self)@.history == (match translated {
                Some(t) => TranslationHistory::pushed(old(self)@.history, original@, t@),
                None => old(self)@.history,
            }),
    {
        self.published = compose_display(mode, original.as_str(), &translated);
        match translated {
            Some(t) => {
                self.history.push(original.clone(), t);
            },
            None => {},
        }
    }

    /// A read of the single most-recent published result.
    pub fn published(&self) -> (r: &String)
        ensures
            r@ == self@.published,
    {
        &self.published
    }
}

/// Ending a session is idempotent: observing the flag low leaves an empty
/// accumulator and an empty published display, and observing it low again
/// changes nothing.
pub proof fn lemma_session_end_idempotent(p: PipelineView)
    requires
        p.inv(),
    ensures
        session_step(p, false).seg.phrase.len() == 0,
        session_step(p, false).published.len() == 0,
        session_step(session_step(p, false), false) == session_step(p, false),
{
}

} // verus!
