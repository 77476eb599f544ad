//! The non-overlapping match iteration protocol.
//!
//! A stream of matches is driven by repeating one primitive: "search the
//! subject from the current floor offset". The cursor below holds the
//! protocol state — the floor (`last_end`) and the end of the previously
//! yielded match (`last_match`) — and `record` applies the advancement rule
//! to one search outcome: a non-empty match moves the floor to its end; an
//! empty match moves the floor one past its end so the stream always makes
//! progress, and is suppressed entirely when it is glued to the end of the
//! previously yielded match. Whoever drives the engine runs the loop:
//! search where `search_start` says, hand the outcome to `record`, and act
//! on the step it returns.

use vstd::prelude::*;
use crate::regex::Regex;

verus! {

/// What one recorded search outcome means for the stream.
#[derive(Clone, Copy, Debug, PartialEq, Eq, Structural)]
pub enum Step {
    /// A match to hand out, as its byte offsets in the subject.
    Found { start: usize, end: usize },
    /// An empty match suppressed for being glued to the previous match:
    /// search again from the new floor.
    Skipped,
    /// No match at or after the floor: the stream is over.
    Done,
}

/// The advancement rule: from the cursor state and one search outcome, the
/// new state and what to do. `None` is the engine's "no match". An empty
/// match at the end of the previously yielded match is skipped; any other
/// match is handed out, and the floor moves past it.
pub open spec fn spec_step(
    last_end: usize,
    last_match: Option<usize>,
    outcome: Option<(usize, usize)>,
) -> (usize, Option<usize>, Step) {
    match outcome {
        None => (last_end, last_match, Step::Done),
        Some(p) => {
            let s = p.0;
            let e = p.1;
            if s == e {
                if last_match == Some(e) {
                    ((e + 1) as usize, last_match, Step::Skipped)
                } else {
                    ((e + 1) as usize, Some(e), Step::Found { start: s, end: e })
                }
            } else {
                (e, Some(e), Step::Found { start: s, end: e })
            }
        },
    }
}

/// What the protocol demands of a search outcome: a reported match starts
/// at or after the floor the search began at, and lies within the subject.
pub open spec fn spec_outcome_ok(
    last_end: usize,
    subject_len: int,
    outcome: Option<(usize, usize)>,
) -> bool {
    outcome matches Some(p) ==> last_end <= p.0 <= p.1 <= subject_len
}

/// A cursor over all non-overlapping matches of a pattern in a subject.
///
/// The cursor only decides; it never searches. Each round, `search_start`
/// names the offset to search from (or reports exhaustion), and `record`
/// takes what the engine found there.
pub struct Matches<'r, 's> {
    re: &'r Regex,
    subject: &'s [u8],
    last_end: usize,
    last_match: Option<usize>,
}

/// A cursor over the capture groups of all non-overlapping matches of a
/// pattern in a subject: the same protocol as `Matches`, driven by searches
/// that also keep each match's group offsets.
pub struct CaptureMatches<'r, 's> {
    re: &'r Regex,
    subject: &'s [u8],
    last_end: usize,
    last_match: Option<usize>,
}

impl<'r, 's> Matches<'r, 's> {
    #[verifier::type_invariant]
    spec fn type_inv(self) -> bool {
        self.subject@.len() < usize::MAX
    }

    /// The pattern this cursor searches with.
    pub closed spec fn spec_regex(&self) -> &'r Regex {
        self.re
    }

    /// The subject this cursor walks.
    pub closed spec fn spec_subject(&self) -> Seq<u8> {
        self.subject@
    }

    /// The floor: no match before this offset will be reported again.
    pub closed spec fn spec_last_end(&self) -> usize {
        self.last_end
    }

    /// The end of the previously yielded match, if any.
    pub closed spec fn spec_last_match(&self) -> Option<usize> {
        self.last_match
    }

    /// A cursor at the start of the subject. A slice is always shorter than
    /// `usize::MAX`, which keeps the floor's one-past-an-empty-match step
    /// representable.
    pub fn new(re: &'r Regex, subject: &'s [u8]) -> (r: Matches<'r, 's>)
        requires
            subject@.len() < usize::MAX,
        ensures
            r.spec_regex() == re,
            r.spec_subject() == subject@,
            r.spec_last_end() == 0,
            r.spec_last_match() is None,
    {
        Matches { re, subject, last_end: 0, last_match: None }
    }

    /// The pattern this cursor searches with.
    pub fn regex(&self) -> (r: &'r Regex)
        ensures
            r == self.spec_regex(),
    {
        self.re
    }

    /// The subject this cursor walks.
    pub fn subject(&self) -> (r: &'s [u8])
        ensures
            r@ == self.spec_subject(),
    {
        self.subject
    }

    /// Where the next search must start: `None` once the floor has passed
    /// the end of the subject, which ends the stream.
    pub fn search_start(&self) -> (r: Option<usize>)
        ensures
            r == if self.spec_last_end() <= self.spec_subject().len() {
                Some(self.spec_last_end())
            } else {
                None::<usize>
            },
    {
        if self.last_end <= self.subject.len() {
            Some(self.last_end)
        } else {
            None
        }
    }

    /// Record the outcome of a search that started at the floor: the state
    /// advances by the rule of `spec_step`, and the floor strictly grows on
    /// every reported match — a match handed out starts at or after the old
    /// floor and ends at or before the new one, so the stream's matches are
    /// non-overlapping and in order, and it always terminates.
    pub fn record(&mut self, outcome: Option<(usize, usize)>) -> (step: Step)
        requires
            old(self).spec_last_end() <= old(self).spec_subject().len(),
            spec_outcome_ok(
                old(self).spec_last_end(),
                old(self).spec_subject().len() as int,
                outcome,
            ),
        ensures
            final(self).spec_regex() == old(self).spec_regex(),
            final(self).spec_subject() == old(self).spec_subject(),
            (final(self).spec_last_end(), final(self).spec_last_match(), step) == spec_step(
                old(self).spec_last_end(),
                old(self).spec_last_match(),
                outcome,
            ),
            final(self).spec_last_end() >= old(self).spec_last_end(),
            outcome is Some ==> final(self).spec_last_end() > old(self).spec_last_end(),
            step matches Step::Found { start, end } ==> old(self).spec_last_end() <= start
                <= end <= final(self).spec_last_end(),
    {
        proof {
            use_type_invariant(&*self);
        }
        match outcome {
            None => Step::Done,
            Some((s, e)) => {
                let was_last = match self.last_match {
                    Some(lm) => lm == e,
                    None => false,
                };
                if s == e {
                    self.last_end = e + 1;
                    if was_last {
                        Step::Skipped
                    } else {
                        self.last_match = Some(e);
                        Step::Found { start: s, end: e }
                    }
                } else {
                    self.last_end = e;
                    self.last_match = Some(e);
                    Step::Found { start: s, end: e }
                }
            },
        }
    }
}

impl<'r, 's> CaptureMatches<'r, 's> {
    #[verifier::type_invariant]
    spec fn type_inv(self) -> bool {
        self.subject@.len() < usize::MAX
    }

    /// The pattern this cursor searches with.
    pub closed spec fn spec_regex(&self) -> &'r Regex {
        self.re
    }

    /// The subject this cursor walks.
    pub closed spec fn spec_subject(&self) -> Seq<u8> {
        self.subject@
    }

    /// The floor: no match before this offset will be reported again.
    pub closed spec fn spec_last_end(&self) -> usize {
        self.last_end
    }

    /// The end of the previously yielded match, if any.
    pub closed spec fn spec_last_match(&self) -> Option<usize> {
        self.last_match
    }

    /// A cursor at the start of the subject.
    pub fn new(re: &'r Regex, subject: &'s [u8]) -> (r: CaptureMatches<'r, 's>)
        requires
            subject@.len() < usize::MAX,
        ensures
            r.spec_regex() == re,
            r.spec_subject() == subject@,
            r.spec_last_end() == 0,
            r.spec_last_match() is None,
    {
        CaptureMatches { re, subject, last_end: 0, last_match: None }
    }

    /// The pattern this cursor searches with.
    pub fn regex(&self) -> (r: &'r Regex)
        ensures
            r == self.spec_regex(),
    {
        self.re
    }

    /// The subject this cursor walks.
    pub fn subject(&self) -> (r: &'s [u8])
        ensures
            r@ == self.spec_subject(),
    {
        self.subject
    }

    /// Where the next search must start: `None` once the floor has passed
    /// the end of the subject, which ends the stream.
    pub fn search_start(&self) -> (r: Option<usize>)
        ensures
            r == if self.spec_last_end() <= self.spec_subject().len() {
                Some(self.spec_last_end())
            } else {
                None::<usize>
            },
    {
        if self.last_end <= self.subject.len() {
            Some(self.last_end)
        } else {
            None
        }
    }

    /// Record the outcome of a search that started at the floor; the same
    /// advancement rule as `Matches::record`.
    pub fn record(&mut self, outcome: Option<(usize, usize)>) -> (step: Step)
        requires
            old(self).spec_last_end() <= old(self).spec_subject().len(),
            spec_outcome_ok(
                old(self).spec_last_end(),
                old(self).spec_subject().len() as int,
                outcome,
            ),
        ensures
            final(self).spec_regex() == old(self).spec_regex(),
            final(self).spec_subject() == old(self).spec_subject(),
            (final(self).spec_last_end(), final(self).spec_last_match(), step) == spec_step(
                old(self).spec_last_end(),
                old(self).spec_last_match(),
                outcome,
            ),
            final(self).spec_last_end() >= old(self).spec_last_end(),
            outcome is Some ==> final(self).spec_last_end() > old(self).spec_last_end(),
            step matches Step::Found { start, end } ==> old(self).spec_last_end() <= start
                <= end <= final(self).spec_last_end(),
    {
        proof {
            use_type_invariant(&*self);
        }
        match outcome {
            None => Step::Done,
            Some((s, e)) => {
                let was_last = match self.last_match {
                    Some(lm) => lm == e,
                    None => false,
                };
                if s == e {
                    self.last_end = e + 1;
                    if was_last {
                        Step::Skipped
                    } else {
                        self.last_match = Some(e);
                        Step::Found { start: s, end: e }
                    }
                } else {
                    self.last_end = e;
                    self.last_match = Some(e);
                    Step::Found { start: s, end: e }
                }
            },
        }
    }
}

/// The matches a whole run of the protocol hands out, from state
/// (`last_end`, `last_match`) over a subject of length `subject_len`, when
/// the successive searches return `outcomes`. The run stops at exhaustion,
/// at "no match", or at an outcome that breaks the search contract (a real
/// engine never does; the guard only makes the run total).
pub open spec fn spec_run(
    last_end: usize,
    last_match: Option<usize>,
    subject_len: usize,
    outcomes: Seq<Option<(usize, usize)>>,
) -> Seq<(usize, usize)>
    decreases outcomes.len(),
{
    if outcomes.len() == 0 || last_end > subject_len || !spec_outcome_ok(
        last_end,
        subject_len as int,
        outcomes[0],
    ) {
        Seq::empty()
    } else {
        let t = spec_step(last_end, last_match, outcomes[0]);
        match t.2 {
            Step::Found { start, end } => seq![(start, end)] + spec_run(
                t.0,
                t.1,
                subject_len,
                outcomes.drop_first(),
            ),
            Step::Skipped => spec_run(t.0, t.1, subject_len, outcomes.drop_first()),
            Step::Done => Seq::empty(),
        }
    }
}

/// The matches of a run are in order and non-overlapping: each starts at or
/// after the floor the run began with, none starts past the end of the
/// subject, and a later match starts at or after the end of any earlier one.
pub proof fn lemma_run_ordered(
    last_end: usize,
    last_match: Option<usize>,
    subject_len: usize,
    outcomes: Seq<Option<(usize, usize)>>,
)
    requires
        subject_len < usize::MAX,
    ensures
        ({
            let ms = spec_run(last_end, last_match, subject_len, outcomes);
            &&& forall|k: int|
                0 <= k < ms.len() ==> last_end <= #[trigger] ms[k].0 <= ms[k].1 <= subject_len
            &&& forall|j: int, k: int|
                0 <= j < k < ms.len() ==> #[trigger] ms[j].1 <= #[trigger] ms[k].0
        }),
    decreases outcomes.len(),
{
    let ms = spec_run(last_end, last_match, subject_len, outcomes);
    if !(outcomes.len() == 0 || last_end > subject_len || !spec_outcome_ok(
        last_end,
        subject_len as int,
        outcomes[0],
    )) {
        let t = spec_step(last_end, last_match, outcomes[0]);
        lemma_run_ordered(t.0, t.1, subject_len, outcomes.drop_first());
        let rest = spec_run(t.0, t.1, subject_len, outcomes.drop_first());
        match t.2 {
            Step::Found { start, end } => {
                assert(ms == seq![(start, end)] + rest);
                assert(end <= t.0);
                assert(forall|k: int| 0 <= k < rest.len() ==> ms[k + 1] == rest[k]);
            },
            Step::Skipped => {
                assert(last_end <= t.0);
            },
            Step::Done => {},
        }
    }
}

/// A run always terminates: over a subject of length `n`, a run whose floor
/// starts at `last_end` hands out at most `n + 1 - last_end` matches — every
/// recorded outcome, an empty match included, moves the floor strictly
/// forward, and the floor never passes `n + 1`.
pub proof fn lemma_run_bounded(
    last_end: usize,
    last_match: Option<usize>,
    subject_len: usize,
    outcomes: Seq<Option<(usize, usize)>>,
)
    requires
        subject_len < usize::MAX,
    ensures
        spec_run(last_end, last_match, subject_len, outcomes).len() <= if last_end <= subject_len {
            subject_len + 1 - last_end
        } else {
            0
        },
    decreases outcomes.len(),
{
    if !(outcomes.len() == 0 || last_end > subject_len || !spec_outcome_ok(
        last_end,
        subject_len as int,
        outcomes[0],
    )) {
        let t = spec_step(last_end, last_match, outcomes[0]);
        lemma_run_bounded(t.0, t.1, subject_len, outcomes.drop_first());
        if outcomes[0] is Some {
            assert(t.0 > last_end);
        }
    }
}

} // verus!
