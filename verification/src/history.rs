//! The bounded rolling context for the translation call: the last few
//! (original, translated) pairs, oldest first, with the oldest pair
//! evicted once the bound is exceeded.

use vstd::prelude::*;

verus! {

/// Upper bound on the number of (original, translated) pairs kept.
pub const MAX_HISTORY: usize = 3;

/// One (original, translated) pair.
pub struct HistoryEntry {
    pub original: String,
    pub translated: String,
}

/// Ordered, size-bounded queue of (original, translated) pairs, oldest
/// first.
pub struct TranslationHistory {
    entries: Vec<HistoryEntry>,
}

impl View for TranslationHistory {
    type V = Seq<(Seq<char>, Seq<char>)>;

    closed spec fn view(&self) -> Seq<(Seq<char>, Seq<char>)> {
        Seq::new(self.entries@.len(), |i: int| (self.entries@[i].original@, self.entries@[i].translated@))
    }
}

impl TranslationHistory {
    /// The queue never holds more than `MAX_HISTORY` pairs.
    pub open spec fn wf(self) -> bool {
        self@.len() <= MAX_HISTORY
    }

    /// What the queue holds after a successful translation: the new pair
    /// is appended, and when the queue was full the oldest pair leaves.
    pub open spec fn pushed(
        h: Seq<(Seq<char>, Seq<char>)>,
        original: Seq<char>,
        translated: Seq<char>,
    ) -> Seq<(Seq<char>, Seq<char>)> {
        if h.len() < MAX_HISTORY {
            h.push((original, translated))
        } else {
            h.subrange(1, h.len() as int).push((original, translated))
        }
    }

    /// The bound holds after every push, and a push onto a full queue evicts
    /// exactly the oldest pair: the queue then holds the two younger pairs
    /// followed by the new one, and nothing else.
    pub proof fn lemma_push_bounds_and_evicts(
        h: Seq<(Seq<char>, Seq<char>)>,
        original: Seq<char>,
        translated: Seq<char>,
    )
        requires
            h.len() <= MAX_HISTORY,
        ensures
            Self::pushed(h, original, translated).len() <= MAX_HISTORY,
            h.len() == MAX_HISTORY ==> (Self::pushed(h, original, translated) == seq![
                h[1],
                h[2],
                (original, translated),
            ]),
    {
        if h.len() == MAX_HISTORY {
            assert(Self::pushed(h, original, translated) =~= seq![
                h[1],
                h[2],
                (original, translated),
            ]);
        }
    }

    pub fn new() -> (h: TranslationHistory)
        ensures
            h.wf(),
            h@ == Seq::<(Seq<char>, Seq<char>)>::empty(),
    {
        let h = TranslationHistory { entries: Vec::new() };
        proof {
            assert(h@ =~= Seq::<(Seq<char>, Seq<char>)>::empty());
        }
        h
    }

    pub fn len(&self) -> (n: usize)
        ensures
            n == self@.len(),
    {
        self.entries.len()
    }

    /// The pair at a position, oldest first.
    pub fn get(&self, i: usize) -> (e: (&String, &String))
        requires
            i < self@.len(),
        ensures
            e.0@ == self@[i as int].0,
            e.1@ == self@[i as int].1,
    {
        let entry = &self.entries[i];
        (&entry.original, &entry.translated)
    }

    /// Appends a pair, evicting the oldest one when the queue is full, so
    /// that the bound is never exceeded.
    pub fn push(&mut self, original: String, translated: String)
        requires
            old(self).wf(),
        ensures
            final(self).wf(),
            final(self)@ == Self::pushed(old(self)@, original@, translated@),
            final(self)@.len() <= MAX_HISTORY,
    {
        let ghost orig_view = self@;
        let ghost o = original@;
        let ghost t = translated@;
        self.entries.push(HistoryEntry { original, translated });
        proof {
            assert(self@ =~= orig_view.push((o, t)));
        }
        if self.entries.len() > MAX_HISTORY {
            self.entries.remove(0);
            proof {
                assert(self@ =~= orig_view.subrange(1, orig_view.len() as int).push((o, t)));
            }
        }
    }
}

} // verus!
