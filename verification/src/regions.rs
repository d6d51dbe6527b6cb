//! The registry of clickable regions: which rectangle of the screen gives the
//! focus to which mode when the pointer goes down on it.

use crate::app::Mode;
use crate::geometry::{Position, Rect};
use vstd::prelude::*;

verus! {

/// A rectangle of the screen and the mode that a click on it selects.
#[derive(Clone, Copy, Debug, PartialEq, Eq, Structural)]
pub struct Region {
    pub mode: Mode,
    pub area: Rect,
}

/// The regions in the order in which they were registered. A mode has at most
/// one region; registering it again replaces the rectangle and keeps the
/// place.
#[derive(Debug)]
pub struct Regions {
    entries: Vec<Region>,
}

/// No two entries belong to the same mode.
pub open spec fn distinct_modes(regions: Seq<Region>) -> bool {
    forall|i: int, j: int|
        0 <= i < regions.len() && 0 <= j < regions.len() && i != j ==> regions[i].mode
            != regions[j].mode
}

/// Whether some entry belongs to `mode`.
pub open spec fn has_mode(regions: Seq<Region>, mode: Mode) -> bool {
    exists|i: int| 0 <= i < regions.len() && regions[i].mode == mode
}

/// The place of the entry of `mode`, where there is one.
pub open spec fn mode_index(regions: Seq<Region>, mode: Mode) -> int {
    choose|i: int| 0 <= i < regions.len() && regions[i].mode == mode
}

/// The registry after `mode` was registered with `area`: its entry is
/// replaced where it stands, or added at the end.
pub open spec fn with_region(regions: Seq<Region>, mode: Mode, area: Rect) -> Seq<Region> {
    if has_mode(regions, mode) {
        regions.update(mode_index(regions, mode), Region { mode, area })
    } else {
        regions.push(Region { mode, area })
    }
}

/// The mode of the first region, from entry `start` on, that contains `p`.
pub open spec fn first_hit_from(regions: Seq<Region>, p: Position, start: int) -> Option<Mode>
    decreases regions.len() - start,
{
    if start < 0 || start >= regions.len() {
        None
    } else if regions[start].area.contains(p) {
        Some(regions[start].mode)
    } else {
        first_hit_from(regions, p, start + 1)
    }
}

/// The mode that a click on `p` selects: that of the first registered region
/// that contains `p`, if any does.
pub open spec fn first_hit(regions: Seq<Region>, p: Position) -> Option<Mode> {
    first_hit_from(regions, p, 0)
}

/// A click inside region `i` and outside every region registered before it
/// selects the mode of region `i`.
pub proof fn lemma_first_hit_inside(regions: Seq<Region>, p: Position, i: int)
    requires
        0 <= i < regions.len(),
        regions[i].area.contains(p),
        forall|j: int| 0 <= j < i ==> !regions[j].area.contains(p),
    ensures
        first_hit(regions, p) == Some(regions[i].mode),
{
    lemma_first_hit_skips(regions, p, 0, i);
}

/// A click outside every region selects nothing.
pub proof fn lemma_first_hit_outside(regions: Seq<Region>, p: Position)
    requires
        forall|j: int| 0 <= j < regions.len() ==> !regions[j].area.contains(p),
    ensures
        first_hit(regions, p) is None,
{
    lemma_first_hit_skips(regions, p, 0, regions.len() as int);
}

/// Whatever a click selects is the mode of a region that contains it, and no
/// region registered before that one contains it.
pub proof fn lemma_first_hit_is_first(regions: Seq<Region>, p: Position)
    ensures
        match first_hit(regions, p) {
            Some(mode) => exists|i: int|
                0 <= i < regions.len() && regions[i].mode == mode && regions[i].area.contains(p)
                    && forall|j: int| 0 <= j < i ==> !regions[j].area.contains(p),
            None => forall|j: int| 0 <= j < regions.len() ==> !regions[j].area.contains(p),
        },
{
    lemma_first_hit_from(regions, p, 0);
}

proof fn lemma_first_hit_skips(regions: Seq<Region>, p: Position, start: int, end: int)
    requires
        0 <= start <= end <= regions.len(),
        forall|j: int| start <= j < end ==> !regions[j].area.contains(p),
    ensures
        first_hit_from(regions, p, start) == first_hit_from(regions, p, end),
    decreases end - start,
{
    if start < end {
        lemma_first_hit_skips(regions, p, start + 1, end);
    }
}

proof fn lemma_first_hit_from(regions: Seq<Region>, p: Position, start: int)
    requires
        0 <= start,
    ensures
        match first_hit_from(regions, p, start) {
            Some(mode) => exists|i: int|
                start <= i < regions.len() && regions[i].mode == mode && regions[i].area.contains(
                    p,
                ) && forall|j: int| start <= j < i ==> !regions[j].area.contains(p),
            None => forall|j: int| start <= j < regions.len() ==> !regions[j].area.contains(p),
        },
    decreases regions.len() - start,
{
    if start < regions.len() {
        if regions[start].area.contains(p) {
        } else {
            lemma_first_hit_from(regions, p, start + 1);
            match first_hit_from(regions, p, start + 1) {
                Some(mode) => {
                    let i = choose|i: int|
                        start + 1 <= i < regions.len() && regions[i].mode == mode
                            && regions[i].area.contains(p) && forall|j: int|
                            start + 1 <= j < i ==> !regions[j].area.contains(p);
                    assert(start <= i < regions.len() && regions[i].mode == mode
                        && regions[i].area.contains(p) && forall|j: int|
                        start <= j < i ==> !regions[j].area.contains(p));
                },
                None => {},
            }
        }
    }
}

impl View for Regions {
    type V = Seq<Region>;

    closed spec fn view(&self) -> Seq<Region> {
        self.entries@
    }
}

impl Regions {
    #[verifier::type_invariant]
    spec fn inv(self) -> bool {
        distinct_modes(self.entries@)
    }

    /// An empty registry.
    pub fn new() -> (regions: Regions)
        ensures
            regions@ == Seq::<Region>::empty(),
    {
        Regions { entries: Vec::new() }
    }

    /// The number of registered regions.
    pub fn len(&self) -> (n: usize)
        ensures
            n == self@.len(),
    {
        self.entries.len()
    }

    pub fn is_empty(&self) -> (b: bool)
        ensures
            b == (self@.len() == 0),
    {
        self.entries.len() == 0
    }

    /// Forgets every region.
    pub fn clear(&mut self)
        ensures
            final(self)@ == Seq::<Region>::empty(),
    {
        self.entries = Vec::new();
    }

    /// The place of the entry of `mode`.
    fn position(&self, mode: Mode) -> (place: Option<usize>)
        ensures
            distinct_modes(self@),
            match place {
                Some(i) => has_mode(self@, mode) && i == mode_index(self@, mode) && i
                    < self@.len(),
                None => !has_mode(self@, mode),
            },
    {
        proof {
            use_type_invariant(self);
        }
        let n: usize = self.entries.len();
        let mut i: usize = 0;
        while i < n
            invariant
                i <= n,
                n == self.entries@.len(),
                distinct_modes(self.entries@),
                forall|j: int| 0 <= j < i ==> self.entries@[j].mode != mode,
            decreases n - i,
        {
            if self.entries[i].mode == mode {
                return Some(i);
            }
            i = i + 1;
        }
        None
    }

    /// Registers `area` as the region of `mode`.
    pub fn insert(&mut self, mode: Mode, area: Rect)
        ensures
            final(self)@ == with_region(old(self)@, mode, area),
            distinct_modes(final(self)@),
    {
        let mut next: Vec<Region> = self.entries();
        match self.position(mode) {
            Some(i) => {
                next.set(i, Region { mode, area });
            },
            None => {
                next.push(Region { mode, area });
            },
        }
        self.entries = next;
    }

    /// The region registered for `mode`.
    pub fn get(&self, mode: Mode) -> (area: Option<Rect>)
        ensures
            match area {
                Some(rect) => has_mode(self@, mode) && self@[mode_index(self@, mode)].area == rect,
                None => !has_mode(self@, mode),
            },
    {
        match self.position(mode) {
            Some(i) => Some(self.entries[i].area),
            None => None,
        }
    }

    /// The registered regions in registration order.
    pub fn entries(&self) -> (entries: Vec<Region>)
        ensures
            entries@ == self@,
            distinct_modes(entries@),
    {
        proof {
            use_type_invariant(self);
        }
        let n: usize = self.entries.len();
        let mut entries: Vec<Region> = Vec::new();
        let mut i: usize = 0;
        while i < n
            invariant
                i <= n,
                n == self.entries@.len(),
                entries@ == self.entries@.subrange(0, i as int),
            decreases n - i,
        {
            entries.push(self.entries[i]);
            i = i + 1;
        }
        entries
    }

    /// The mode that a click on `p` selects: that of the first registered
    /// region that contains `p`.
    pub fn hit(&self, p: Position) -> (mode: Option<Mode>)
        ensures
            mode == first_hit(self@, p),
    {
        let n: usize = self.entries.len();
        let mut i: usize = 0;
        while i < n
            invariant
                i <= n,
                n == self.entries@.len(),
                first_hit(self.entries@, p) == first_hit_from(self.entries@, p, i as int),
            decreases n - i,
        {
            if self.entries[i].area.contains(p) {
                return Some(self.entries[i].mode);
            }
            i = i + 1;
        }
        None
    }
}

} // verus!
