//! The compiled-pattern handle, and the views over a subject buffer that a
//! search produces: the overall match and the capture-group offsets.

use vstd::prelude::*;
use crate::error::{spec_match_outcome, Error};
use crate::options::{Config, UNSET};

verus! {

/// A single match of a pattern in a subject buffer: the subject together
/// with the start and end byte offsets the engine reported.
#[derive(Clone, Copy, Debug, PartialEq, Eq)]
pub struct Match<'s> {
    subject: &'s [u8],
    start: usize,
    end: usize,
}

impl<'s> Match<'s> {
    #[verifier::type_invariant]
    spec fn type_inv(self) -> bool {
        self.start <= self.end <= self.subject@.len()
    }

    /// The subject buffer this match points into.
    pub closed spec fn spec_subject(&self) -> Seq<u8> {
        self.subject@
    }

    /// The starting byte offset of the match in the subject.
    pub closed spec fn spec_start(&self) -> usize {
        self.start
    }

    /// The ending byte offset of the match in the subject.
    pub closed spec fn spec_end(&self) -> usize {
        self.end
    }

    /// Creates a new match from the given subject and byte offsets.
    pub fn new(subject: &'s [u8], start: usize, end: usize) -> (r: Match<'s>)
        requires
            start <= end <= subject@.len(),
        ensures
            r.spec_subject() == subject@,
            r.spec_start() == start,
            r.spec_end() == end,
    {
        Match { subject, start, end }
    }

    /// The starting byte offset of the match in the subject.
    pub fn start(&self) -> (r: usize)
        ensures
            r == self.spec_start(),
    {
        self.start
    }

    /// The ending byte offset of the match in the subject.
    pub fn end(&self) -> (r: usize)
        ensures
            r == self.spec_end(),
    {
        self.end
    }

    /// The matched portion of the subject: exactly the bytes between the
    /// offsets the engine reported.
    pub fn as_bytes(&self) -> (r: &'s [u8])
        ensures
            r@ == self.spec_subject().subrange(self.spec_start() as int, self.spec_end() as int),
    {
        proof {
            use_type_invariant(&*self);
        }
        &self.subject[self.start..self.end]
    }

    /// The match as its pair of byte offsets.
    pub fn as_pair(&self) -> (r: (usize, usize))
        ensures
            r == (self.spec_start(), self.spec_end()),
    {
        (self.start, self.end)
    }
}

/// The start and end offsets a group's pair of slots holds, or `None` for a
/// slot index out of range or a group that did not participate in the match.
pub open spec fn spec_slot_pair(offsets: Seq<usize>, i: int) -> Option<(usize, usize)> {
    if 0 <= i && 2 * i + 1 < offsets.len() && offsets[2 * i] != UNSET && offsets[2 * i + 1]
        != UNSET {
        Some((offsets[2 * i], offsets[2 * i + 1]))
    } else {
        None
    }
}

/// Whether a group's offsets, if the group participated, lie within a
/// subject of length `limit`, with the start not past the end.
pub open spec fn spec_pair_within(o: Option<(usize, usize)>, limit: int) -> bool {
    o matches Some(p) ==> p.0 <= p.1 <= limit
}

/// The raw offsets of each capture group after a search: one pair of slots
/// per group, group 0 being the overall match, with `UNSET` in the slots of
/// a group that did not participate.
///
/// A value of this type is shaped for one pattern (two slots per capture
/// group of that pattern) and must only be filled from searches of it.
pub struct CaptureLocations {
    offsets: Vec<usize>,
}

impl Clone for CaptureLocations {
    /// A clone is a buffer of the same shape — two slots per capture group
    /// of the same pattern — carrying the same slot contents.
    fn clone(&self) -> (r: CaptureLocations)
        ensures
            r.spec_offsets() == self.spec_offsets(),
    {
        proof {
            use_type_invariant(&*self);
        }
        let offsets = self.offsets.clone();
        proof {
            assert(offsets@ =~= self.offsets@);
        }
        CaptureLocations { offsets }
    }
}

impl CaptureLocations {
    #[verifier::type_invariant]
    spec fn type_inv(self) -> bool {
        self.offsets@.len() % 2 == 0 && self.offsets@.len() >= 2
    }

    /// The flat sequence of offset slots: two per capture group.
    pub closed spec fn spec_offsets(&self) -> Seq<usize> {
        self.offsets@
    }

    /// What `get` returns for group `i`.
    pub open spec fn spec_get(&self, i: int) -> Option<(usize, usize)> {
        spec_slot_pair(self.spec_offsets(), i)
    }

    /// A buffer of `groups` all-unset pairs; `groups` must cover at least
    /// the whole-match group.
    pub fn all_unset(groups: usize) -> (r: CaptureLocations)
        requires
            1 <= groups,
            2 * groups <= usize::MAX,
        ensures
            r.spec_offsets().len() == 2 * groups,
            forall|i: int| r.spec_get(i) is None,
    {
        let unset = crate::engine::unset_sentinel();
        let mut offsets: Vec<usize> = Vec::new();
        let mut k: usize = 0;
        while k < groups
            invariant
                unset == UNSET,
                k <= groups,
                2 * groups <= usize::MAX,
                offsets@.len() == 2 * k,
                forall|j: int| 0 <= j < offsets@.len() ==> offsets@[j] == UNSET,
            decreases groups - k,
        {
            offsets.push(unset);
            offsets.push(unset);
            k = k + 1;
        }
        CaptureLocations { offsets }
    }

    /// Overwrite the slots with the offsets a search wrote; the engine hands
    /// back exactly as many slots as the buffer was shaped with.
    pub fn set_offsets(&mut self, offsets: Vec<usize>)
        requires
            offsets@.len() == old(self).spec_offsets().len(),
        ensures
            final(self).spec_offsets() == offsets@,
    {
        proof {
            use_type_invariant(&*self);
        }
        self.offsets = offsets;
    }

    /// Returns the start and end offsets of the `i`th capture group, or
    /// `None` if `i` is out of range or the group did not participate in
    /// the match.
    pub fn get(&self, i: usize) -> (r: Option<(usize, usize)>)
        ensures
            r == self.spec_get(i as int),
    {
        proof {
            use_type_invariant(&*self);
        }
        let n = self.offsets.len();
        if i >= n / 2 {
            return None;
        }
        let unset = crate::engine::unset_sentinel();
        let s = self.offsets[2 * i];
        if s == unset {
            return None;
        }
        let e = self.offsets[2 * i + 1];
        if e == unset {
            return None;
        }
        Some((s, e))
    }

    /// The total number of capture groups, the whole-match group included;
    /// always at least 1.
    pub fn len(&self) -> (r: usize)
        ensures
            r == self.spec_offsets().len() / 2,
            r >= 1,
    {
        proof {
            use_type_invariant(&*self);
        }
        self.offsets.len() / 2
    }

    /// The compute half of one capture-reading search session: read the
    /// engine's return code `rc`, and on a match take over `offsets`, the
    /// ovector the engine wrote, and hand back the overall match (group 0).
    /// On "no match" or an error the slots stay as they were.
    pub fn record_search<'s>(&mut self, subject: &'s [u8], rc: i32, offsets: Vec<usize>) -> (r:
        Result<Option<Match<'s>>, Error>)
        requires
            offsets@.len() == old(self).spec_offsets().len(),
            spec_match_outcome(rc) == Ok::<bool, Error>(true) ==> (spec_slot_pair(offsets@, 0)
                matches Some(p) && p.0 <= p.1 <= subject@.len()),
        ensures
            spec_match_outcome(rc) matches Err(e)
                ==> (r matches Err(e2) && e2 == e && *final(self) == *old(self)),
            spec_match_outcome(rc) == Ok::<bool, Error>(false)
                ==> (r matches Ok(m) && m is None && *final(self) == *old(self)),
            spec_match_outcome(rc) == Ok::<bool, Error>(true)
                ==> (r matches Ok(m) && (m matches Some(mm)
                    && final(self).spec_offsets() == offsets@
                    && Some((mm.spec_start(), mm.spec_end())) == spec_slot_pair(offsets@, 0)
                    && mm.spec_subject() == subject@)),
    {
        match crate::error::match_outcome(rc) {
            Err(e) => Err(e),
            Ok(false) => Ok(None),
            Ok(true) => {
                self.set_offsets(offsets);
                match self.get(0) {
                    Some((s, e)) => Ok(Some(Match::new(subject, s, e))),
                    None => vstd::pervasive::unreached(),
                }
            },
        }
    }

    /// Whether every participating group lies within a subject of length
    /// `limit`, start before end: what a well-behaved search of that subject
    /// must leave behind.
    pub fn slots_within(&self, limit: usize) -> (r: bool)
        ensures
            r == forall|i: int| spec_pair_within(#[trigger] self.spec_get(i), limit as int),
    {
        proof {
            use_type_invariant(&*self);
        }
        let groups = self.offsets.len() / 2;
        let mut k: usize = 0;
        while k < groups
            invariant
                k <= groups,
                groups == self.spec_offsets().len() / 2,
                self.spec_offsets().len() % 2 == 0,
                forall|i: int| i < k ==> spec_pair_within(#[trigger] self.spec_get(i), limit as int),
            decreases groups - k,
        {
            match self.get(k) {
                Some((s, e)) => {
                    if !(s <= e && e <= limit) {
                        assert(!spec_pair_within(self.spec_get(k as int), limit as int));
                        return false;
                    }
                },
                None => {},
            }
            k = k + 1;
        }
        assert forall|i: int| spec_pair_within(#[trigger] self.spec_get(i), limit as int) by {
            if i >= k {
                assert(2 * i + 1 >= self.spec_offsets().len());
            }
        }
        true
    }
}

/// The index of the capture group carrying `name`, if any. Groups are
/// scanned in index order and a later group with the same name shadows an
/// earlier one: the last declaration wins.
pub open spec fn spec_name_index(names: Seq<Option<String>>, name: Seq<char>) -> Option<int>
    decreases names.len(),
{
    if names.len() == 0 {
        None
    } else if names.last() matches Some(n) && n@ == name {
        Some(names.len() - 1)
    } else {
        spec_name_index(names.drop_last(), name)
    }
}

/// Look up a capture-group name in a group-name table: the index of the last
/// group declared under that name, or `None` if no group carries it.
pub fn name_index(names: &Vec<Option<String>>, name: &str) -> (r: Option<usize>)
    ensures
        (match r {
            Some(i) => Some(i as int),
            None => None,
        }) == spec_name_index(names@, name@),
{
    let owned: String = name.to_owned();
    let mut i: usize = names.len();
    proof {
        assert(names@.subrange(0, names@.len() as int) =~= names@);
    }
    while i > 0
        invariant
            i <= names@.len(),
            owned@ == name@,
            spec_name_index(names@, name@) == spec_name_index(
                names@.subrange(0, i as int),
                name@,
            ),
        decreases i,
    {
        i = i - 1;
        let ghost pre = names@.subrange(0, i as int + 1);
        proof {
            assert(pre.last() == names@[i as int]);
            assert(pre.drop_last() =~= names@.subrange(0, i as int));
        }
        match &names[i] {
            Some(n) => {
                if *n == owned {
                    proof {
                        assert(spec_name_index(pre, name@) == Some(i as int));
                    }
                    return Some(i);
                }
            },
            None => {},
        }
    }
    proof {
        assert(names@.subrange(0, 0) =~= Seq::<Option<String>>::empty());
    }
    None
}

/// A compiled pattern: the pattern text, the configuration it was compiled
/// under, and the capture-group name table the engine extracted from it.
///
/// The engine's own handle for the pattern lives with whoever drives the
/// engine; values of this type carry everything about the pattern that the
/// session logic reads.
#[derive(Debug)]
pub struct Regex {
    pattern: String,
    config: Config,
    capture_names: Vec<Option<String>>,
}

impl Regex {
    #[verifier::type_invariant]
    spec fn type_inv(self) -> bool {
        &&& 1 <= self.capture_names@.len()
        &&& self.capture_names@.len() <= usize::MAX / 2
        &&& self.capture_names@[0] is None
    }

    /// The pattern text.
    pub closed spec fn spec_pattern(&self) -> Seq<char> {
        self.pattern@
    }

    /// The configuration the pattern was compiled under.
    pub closed spec fn spec_config(&self) -> Config {
        self.config
    }

    /// The capture-group name table: one entry per group, `None` for an
    /// unnamed group; group 0, the whole match, is always unnamed.
    pub closed spec fn spec_capture_names(&self) -> Seq<Option<String>> {
        self.capture_names@
    }

    /// Assemble a compiled-pattern handle from what the engine reported:
    /// the name table has one entry per capture group, group 0 (the whole
    /// match) unnamed.
    pub fn from_parts(pattern: String, config: Config, capture_names: Vec<Option<String>>) -> (r:
        Regex)
        requires
            1 <= capture_names@.len() <= usize::MAX / 2,
            capture_names@[0] is None,
        ensures
            r.spec_pattern() == pattern@,
            r.spec_config() == config,
            r.spec_capture_names() == capture_names@,
    {
        Regex { pattern, config, capture_names }
    }

    /// The original pattern text.
    pub fn as_str(&self) -> (r: &String)
        ensures
            r@ == self.spec_pattern(),
    {
        &self.pattern
    }

    /// The configuration the pattern was compiled under.
    pub fn config(&self) -> (r: Config)
        ensures
            r == self.spec_config(),
    {
        self.config
    }

    /// The engine option bits every search of this pattern passes.
    pub fn match_flags(&self) -> (r: u32)
        ensures
            r == self.spec_config().spec_match_flags(),
    {
        self.config.match_flags()
    }

    /// All capture groups, by index, with their names: `None` for an unnamed
    /// group. The entry for group 0, the whole match, is always `None`.
    pub fn capture_names(&self) -> (r: &Vec<Option<String>>)
        ensures
            r@ == self.spec_capture_names(),
            r@.len() >= 1,
            r@[0] is None,
    {
        proof {
            use_type_invariant(&*self);
        }
        &self.capture_names
    }

    /// The number of capture groups, the whole-match group included; always
    /// at least 1.
    pub fn captures_len(&self) -> (r: usize)
        ensures
            r == self.spec_capture_names().len(),
            r >= 1,
    {
        proof {
            use_type_invariant(&*self);
        }
        self.capture_names.len()
    }

    /// The index of the capture group named `name`: the last group declared
    /// under that name, or `None` if no group carries it.
    pub fn capture_name_index(&self, name: &str) -> (r: Option<usize>)
        ensures
            (match r {
                Some(i) => Some(i as int),
                None => None,
            }) == spec_name_index(self.spec_capture_names(), name@),
    {
        name_index(&self.capture_names, name)
    }

    /// A fresh, all-unset offset buffer shaped for this pattern, reusable
    /// across searches of it.
    pub fn capture_locations(&self) -> (r: CaptureLocations)
        ensures
            r.spec_offsets().len() == 2 * self.spec_capture_names().len(),
            forall|i: int| r.spec_get(i) is None,
    {
        proof {
            use_type_invariant(&*self);
        }
        CaptureLocations::all_unset(self.capture_names.len())
    }
}

/// The compute half of one plain search session: read the engine's return
/// code, and on a match wrap the whole-match offsets the engine wrote into
/// slots 0 and 1 of its scratch. "No match" is a normal result, not an
/// error. The engine guarantees of its own output that the offsets lie
/// within the subject; the caller checks that before handing them in.
pub fn search_match<'s>(subject: &'s [u8], rc: i32, first: usize, second: usize) -> (r: Result<
    Option<Match<'s>>,
    Error,
>)
    requires
        spec_match_outcome(rc) == Ok::<bool, Error>(true) ==> first <= second <= subject@.len(),
    ensures
        spec_match_outcome(rc) matches Err(e) ==> (r matches Err(e2) && e2 == e),
        spec_match_outcome(rc) == Ok::<bool, Error>(false) ==> (r matches Ok(m) && m is None),
        spec_match_outcome(rc) == Ok::<bool, Error>(true) ==> (r matches Ok(m)
            && (m matches Some(mm) && mm.spec_start() == first && mm.spec_end() == second
            && mm.spec_subject() == subject@)),
{
    match crate::error::match_outcome(rc) {
        Err(e) => Err(e),
        Ok(false) => Ok(None),
        Ok(true) => Ok(Some(Match::new(subject, first, second))),
    }
}

/// Reading capture offsets is a pure function of what the search wrote:
/// two buffers filled with the same slots — as two searches with the same
/// pattern, subject and start write — answer every group lookup alike.
pub proof fn lemma_capture_read_repeatable(a: CaptureLocations, b: CaptureLocations)
    requires
        a.spec_offsets() == b.spec_offsets(),
    ensures
        forall|i: int| #[trigger] a.spec_get(i) == b.spec_get(i),
{
}

/// The capture groups of a single match: the subject, the offsets a search
/// of it left behind, and the pattern's group-name table.
///
/// Group 0 is the whole match. A named group is also reachable through
/// `name`; group 0 is always unnamed.
pub struct Captures<'s> {
    subject: &'s [u8],
    locs: CaptureLocations,
    names: Vec<Option<String>>,
}

impl<'s> Captures<'s> {
    #[verifier::type_invariant]
    spec fn type_inv(self) -> bool {
        forall|i: int| spec_pair_within(#[trigger] self.locs.spec_get(i), self.subject@.len() as int)
    }

    /// The subject buffer the groups point into.
    pub closed spec fn spec_subject(&self) -> Seq<u8> {
        self.subject@
    }

    /// What `get` reads for group `i`: the offsets its pair of slots holds.
    pub closed spec fn spec_get(&self, i: int) -> Option<(usize, usize)> {
        self.locs.spec_get(i)
    }

    /// The group-name table these captures were made with.
    pub closed spec fn spec_names(&self) -> Seq<Option<String>> {
        self.names@
    }

    /// What `name` reads for `name`: the offsets of the last group declared
    /// under that name, if it exists and participated.
    pub open spec fn spec_name_get(&self, name: Seq<char>) -> Option<(usize, usize)> {
        match spec_name_index(self.spec_names(), name) {
            Some(i) => self.spec_get(i),
            None => None,
        }
    }

    /// Wrap the offsets a successful search of `subject` wrote, together
    /// with the pattern's group-name table. Every participating group must
    /// lie within the subject, as the engine guarantees of its own output;
    /// `CaptureLocations::slots_within` checks exactly this.
    pub fn new(subject: &'s [u8], locs: CaptureLocations, names: Vec<Option<String>>) -> (r:
        Captures<'s>)
        requires
            forall|i: int| spec_pair_within(#[trigger] locs.spec_get(i), subject@.len() as int),
        ensures
            r.spec_subject() == subject@,
            forall|i: int| #[trigger] r.spec_get(i) == locs.spec_get(i),
            r.spec_names() == names@,
            r.spec_len() == (locs.spec_offsets().len() / 2) as int,
    {
        Captures { subject, locs, names }
    }

    /// The match of the capture group at index `i`: `None` if there is no
    /// group `i` or if it did not participate in the match.
    pub fn get(&self, i: usize) -> (r: Option<Match<'s>>)
        ensures
            match self.spec_get(i as int) {
                Some(p) => r matches Some(m) && m.spec_subject() == self.spec_subject()
                    && m.spec_start() == p.0 && m.spec_end() == p.1,
                None => r is None,
            },
    {
        proof {
            use_type_invariant(&*self);
        }
        match self.locs.get(i) {
            Some((s, e)) => Some(Match::new(self.subject, s, e)),
            None => None,
        }
    }

    /// The match of the capture group named `name`: `None` if no group
    /// carries that name or if the group did not participate in the match.
    /// A later group with the same name shadows an earlier one.
    pub fn name(&self, name: &str) -> (r: Option<Match<'s>>)
        ensures
            match self.spec_name_get(name@) {
                Some(p) => r matches Some(m) && m.spec_subject() == self.spec_subject()
                    && m.spec_start() == p.0 && m.spec_end() == p.1,
                None => r is None,
            },
    {
        match name_index(&self.names, name) {
            Some(i) => self.get(i),
            None => None,
        }
    }

    /// The number of capture groups, the whole-match group included; always
    /// at least 1.
    pub fn len(&self) -> (r: usize)
        ensures
            r == self.spec_len(),
            r >= 1,
    {
        self.locs.len()
    }

    /// What `len` returns: the number of slot pairs the search filled in.
    pub closed spec fn spec_len(&self) -> int {
        (self.locs.spec_offsets().len() / 2) as int
    }
}

} // verus!
