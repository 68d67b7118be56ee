//! Small keyed tables of the rule set: weights by evidence kind, caps by
//! category and a set of kinds. Each is a list in which a later entry for a
//! key shadows the earlier ones, so an insert is an append.

use vstd::prelude::*;

use crate::evidence::model::{EvidenceCategory, EvidenceKind};

verus! {

/// A lower and an upper bound for a score.
#[derive(Debug, Clone, Copy, PartialEq, Eq, Structural)]
pub struct ScoreCap {
    pub min: i16,
    pub max: i16,
}

/// `v` bounded to `[min, max]`, the way `Ord::clamp` bounds it.
pub open spec fn clamp_to(v: int, min: int, max: int) -> int {
    if v < min {
        min
    } else if v > max {
        max
    } else {
        v
    }
}

impl ScoreCap {
    pub open spec fn valid(self) -> bool {
        self.min <= self.max
    }

    pub open spec fn bound(self, v: int) -> int {
        clamp_to(v, self.min as int, self.max as int)
    }

    pub fn new(min: i16, max: i16) -> (r: ScoreCap)
        ensures
            r == (ScoreCap { min, max }),
    {
        ScoreCap { min, max }
    }

    /// The value bounded by the cap; a cap whose minimum exceeds its maximum
    /// is refused (`Ord::clamp` panics on it).
    pub fn clamp(&self, value: i16) -> (r: i16)
        requires
            self.valid(),
        ensures
            r == self.bound(value as int),
    {
        if value < self.min {
            self.min
        } else if value > self.max {
            self.max
        } else {
            value
        }
    }
}

/// The weight of the last entry for the kind.
pub open spec fn last_weight(entries: Seq<(EvidenceKind, i16)>, kind: EvidenceKind) -> Option<i16>
    decreases entries.len(),
{
    if entries.len() == 0 {
        None
    } else if entries.last().0 == kind {
        Some(entries.last().1)
    } else {
        last_weight(entries.drop_last(), kind)
    }
}

/// The cap of the last entry for the category.
pub open spec fn last_cap(entries: Seq<(EvidenceCategory, ScoreCap)>, cat: EvidenceCategory) -> Option<
    ScoreCap,
>
    decreases entries.len(),
{
    if entries.len() == 0 {
        None
    } else if entries.last().0 == cat {
        Some(entries.last().1)
    } else {
        last_cap(entries.drop_last(), cat)
    }
}

/// Weights by evidence kind.
#[derive(Debug, Clone)]
pub struct WeightTable {
    entries: Vec<(EvidenceKind, i16)>,
}

impl WeightTable {
    pub closed spec fn lookup(self, kind: EvidenceKind) -> Option<i16> {
        last_weight(self.entries@, kind)
    }

    pub fn new() -> (t: WeightTable)
        ensures
            forall|k: EvidenceKind| #[trigger] t.lookup(k) is None,
    {
        WeightTable { entries: Vec::new() }
    }

    pub fn get(&self, kind: EvidenceKind) -> (r: Option<i16>)
        ensures
            r == self.lookup(kind),
    {
        let mut i = self.entries.len();
        assert(self.entries@.take(i as int) =~= self.entries@);
        while i > 0
            invariant
                i <= self.entries@.len(),
                last_weight(self.entries@, kind) == last_weight(self.entries@.take(i as int), kind),
            decreases i,
        {
            let (k, w) = self.entries[i - 1];
            assert(self.entries@.take(i as int).drop_last() =~= self.entries@.take(i - 1));
            if k == kind {
                return Some(w);
            }
            i -= 1;
        }
        None
    }

    /// Sets the weight of a kind; gives back the weight it had.
    pub fn insert(&mut self, kind: EvidenceKind, weight: i16) -> (prev: Option<i16>)
        ensures
            prev == old(self).lookup(kind),
            final(self).lookup(kind) == Some(weight),
            forall|k: EvidenceKind| k != kind ==> #[trigger] final(self).lookup(k) == old(self).lookup(k),
    {
        let prev = self.get(kind);
        let ghost before = self.entries@;
        self.entries.push((kind, weight));
        assert(self.entries@.drop_last() =~= before);
        prev
    }
}

/// Caps by category.
#[derive(Debug, Clone)]
pub struct CapTable {
    entries: Vec<(EvidenceCategory, ScoreCap)>,
}

impl CapTable {
    pub closed spec fn lookup(self, cat: EvidenceCategory) -> Option<ScoreCap> {
        last_cap(self.entries@, cat)
    }

    pub fn new() -> (t: CapTable)
        ensures
            forall|c: EvidenceCategory| #[trigger] t.lookup(c) is None,
    {
        CapTable { entries: Vec::new() }
    }

    pub fn get(&self, cat: EvidenceCategory) -> (r: Option<ScoreCap>)
        ensures
            r == self.lookup(cat),
    {
        let mut i = self.entries.len();
        assert(self.entries@.take(i as int) =~= self.entries@);
        while i > 0
            invariant
                i <= self.entries@.len(),
                last_cap(self.entries@, cat) == last_cap(self.entries@.take(i as int), cat),
            decreases i,
        {
            let (c, cap) = self.entries[i - 1];
            assert(self.entries@.take(i as int).drop_last() =~= self.entries@.take(i - 1));
            if c == cat {
                return Some(cap);
            }
            i -= 1;
        }
        None
    }

    /// Sets the cap of a category; gives back the cap it had.
    pub fn insert(&mut self, cat: EvidenceCategory, cap: ScoreCap) -> (prev: Option<ScoreCap>)
        ensures
            prev == old(self).lookup(cat),
            final(self).lookup(cat) == Some(cap),
            forall|c: EvidenceCategory| c != cat ==> #[trigger] final(self).lookup(c) == old(self).lookup(c),
    {
        let prev = self.get(cat);
        let ghost before = self.entries@;
        self.entries.push((cat, cap));
        assert(self.entries@.drop_last() =~= before);
        prev
    }
}

/// A set of evidence kinds.
#[derive(Debug, Clone)]
pub struct KindSet {
    entries: Vec<EvidenceKind>,
}

impl KindSet {
    pub closed spec fn has(self, kind: EvidenceKind) -> bool {
        self.entries@.contains(kind)
    }

    pub fn new() -> (s: KindSet)
        ensures
            forall|k: EvidenceKind| !#[trigger] s.has(k),
    {
        KindSet { entries: Vec::new() }
    }

    pub fn contains(&self, kind: &EvidenceKind) -> (r: bool)
        ensures
            r == self.has(*kind),
    {
        let mut i: usize = 0;
        while i < self.entries.len()
            invariant
                i <= self.entries@.len(),
                forall|j: int| 0 <= j < i ==> self.entries@[j] != *kind,
            decreases self.entries@.len() - i,
        {
            if self.entries[i] == *kind {
                assert(self.entries@[i as int] == *kind);
                return true;
            }
            i += 1;
        }
        false
    }

    /// Adds a kind; true when it was not there yet.
    pub fn insert(&mut self, kind: EvidenceKind) -> (added: bool)
        ensures
            added == !old(self).has(kind),
            forall|k: EvidenceKind| #[trigger] final(self).has(k) == (old(self).has(k) || k == kind),
    {
        if self.contains(&kind) {
            false
        } else {
            let ghost before = self.entries@;
            self.entries.push(kind);
            assert forall|k: EvidenceKind| #[trigger] self.entries@.contains(k) == (before.contains(k)
                || k == kind) by {
                if before.contains(k) {
                    let j = choose|j: int| 0 <= j < before.len() && before[j] == k;
                    assert(self.entries@[j] == k);
                }
                if k == kind {
                    assert(self.entries@[before.len() as int] == k);
                }
                if self.entries@.contains(k) && k != kind {
                    let j = choose|j: int| 0 <= j < self.entries@.len() && self.entries@[j] == k;
                    assert(before[j] == k);
                }
            }
            true
        }
    }
}

} // verus!
