use vstd::prelude::*;

verus! {

/// Number of stages in the ring; bit `i` of a mask stands for stage `i`.
pub const STAGE_COUNT: u8 = 8;

/// A set of stage indices in `0..8`, one bit per stage (stage 0 is bit 0).
#[derive(Debug, Clone, Copy, PartialEq, Eq, Structural)]
pub struct MaskU8(pub u8);

impl MaskU8 {
    /// Stage `i` is a member of the set.
    pub open spec fn has(self, i: int) -> bool {
        0 <= i < 8 && self.0 & (1u8 << (i as u8)) != 0
    }

    /// The lowest member strictly above `pos`, if any.
    pub open spec fn above(self, pos: int) -> Option<u8>
        decreases 8 - pos,
    {
        if pos + 1 >= 8 {
            None
        } else if self.has(pos + 1) {
            Some((pos + 1) as u8)
        } else {
            self.above(pos + 1)
        }
    }

    /// The highest member strictly below `pos`, if any.
    pub open spec fn below(self, pos: int) -> Option<u8>
        decreases pos,
    {
        if pos <= 0 {
            None
        } else if pos > 8 {
            self.below(8)
        } else if self.has(pos - 1) {
            Some((pos - 1) as u8)
        } else {
            self.below(pos - 1)
        }
    }

    pub open spec fn lowest_spec(self) -> Option<u8> {
        self.above(-1)
    }

    pub open spec fn highest_spec(self) -> Option<u8> {
        self.below(8)
    }

    /// Number of members among the stages `0..n`.
    pub open spec fn count_below(self, n: int) -> nat
        decreases n,
    {
        if n <= 0 {
            0
        } else {
            self.count_below(n - 1) + if self.has(n - 1) { 1nat } else { 0nat }
        }
    }

    pub open spec fn is_empty_spec(self) -> bool {
        forall|i: int| 0 <= i < 8 ==> !#[trigger] self.has(i)
    }

    pub fn new() -> (r: MaskU8)
        ensures
            r == MaskU8(0),
            r.is_empty_spec(),
    {
        proof {
            assert forall|i: int| 0 <= i < 8 implies !#[trigger] MaskU8(0).has(i) by {
                let k = i as u8;
                assert(0u8 & (1u8 << k) == 0) by (bit_vector);
            }
        }
        MaskU8(0)
    }

    pub fn next_higher(&self, pos: u8) -> (r: Option<u8>)
        requires
            pos < 8,
        ensures
            r == self.above(pos as int),
            match r {
                Some(j) => pos < j < 8 && self.has(j as int) && forall|k: int|
                    pos < k < j ==> !#[trigger] self.has(k),
                None => forall|k: int| pos < k < 8 ==> !#[trigger] self.has(k),
            },
    {
        proof {
            self.lemma_above(pos as int);
        }
        let mut i: u8 = pos + 1;
        while i < 8
            invariant
                pos < i <= 8,
                self.above(pos as int) == self.above(i - 1),
            decreases 8 - i,
        {
            if self.0 & (1u8 << i) > 0 {
                assert(self.has(i as int));
                assert(self.above(i - 1) == Some(i));
                proof {
                    self.lemma_above(pos as int);
                }
                return Some(i);
            }
            i = i + 1;
        }
        None
    }

    pub fn next_lower(&self, pos: u8) -> (r: Option<u8>)
        requires
            pos <= 8,
        ensures
            r == self.below(pos as int),
            match r {
                Some(j) => j < pos && self.has(j as int) && forall|k: int|
                    j < k < pos ==> !#[trigger] self.has(k),
                None => forall|k: int| 0 <= k < pos ==> !#[trigger] self.has(k),
            },
    {
        proof {
            self.lemma_below(pos as int);
        }
        if pos == 0 {
            return None;
        }
        let mut i: u8 = pos;
        while i > 0
            invariant
                0 <= i <= pos <= 8,
                self.below(pos as int) == self.below(i as int),
            decreases i,
        {
            if self.0 & (1u8 << (i - 1)) > 0 {
                assert(self.has(i - 1));
                assert(self.below(i as int) == Some((i - 1) as u8));
                proof {
                    self.lemma_below(pos as int);
                }
                return Some(i - 1);
            }
            i = i - 1;
        }
        None
    }

    pub fn highest(&self) -> (r: Option<u8>)
        ensures
            r == self.highest_spec(),
            match r {
                Some(j) => j < 8 && self.has(j as int) && forall|k: int|
                    j < k < 8 ==> !#[trigger] self.has(k),
                None => self.is_empty_spec(),
            },
    {
        self.next_lower(8)
    }

    pub fn lowest(&self) -> (r: Option<u8>)
        ensures
            r == self.lowest_spec(),
            match r {
                Some(j) => j < 8 && self.has(j as int) && forall|k: int|
                    0 <= k < j ==> !#[trigger] self.has(k),
                None => self.is_empty_spec(),
            },
    {
        proof {
            self.lemma_above(-1);
        }
        if self.0 & 1 > 0 {
            assert(self.has(0)) by {
                assert(1u8 << 0u8 == 1u8) by (bit_vector);
            }
            Some(0)
        } else {
            assert(!self.has(0)) by {
                assert(1u8 << 0u8 == 1u8) by (bit_vector);
            }
            self.next_higher(0)
        }
    }

    pub fn is_set(&self, pos: u8) -> (r: bool)
        requires
            pos < 8,
        ensures
            r == self.has(pos as int),
    {
        self.0 & (1u8 << pos) > 0
    }

    /// Number of members of the set.
    pub fn count(&self) -> (r: u8)
        ensures
            r == self.count_below(8),
    {
        let mut count: u8 = 0;
        let mut i: u8 = 0;
        while i < 8
            invariant
                i <= 8,
                count == self.count_below(i as int),
                count <= i,
            decreases 8 - i,
        {
            if self.0 & (1u8 << i) > 0 {
                count = count + 1;
            }
            i = i + 1;
        }
        count
    }

    /// What `above` returns, stated without recursion.
    pub proof fn lemma_above(self, pos: int)
        requires
            -1 <= pos < 8,
        ensures
            match self.above(pos) {
                Some(j) => pos < j < 8 && self.has(j as int) && forall|k: int|
                    pos < k < j ==> !#[trigger] self.has(k),
                None => forall|k: int| pos < k < 8 ==> !#[trigger] self.has(k),
            },
        decreases 8 - pos,
    {
        if pos + 1 < 8 && !self.has(pos + 1) {
            self.lemma_above(pos + 1);
        }
    }

    /// What `below` returns, stated without recursion.
    pub proof fn lemma_below(self, pos: int)
        requires
            0 <= pos <= 8,
        ensures
            match self.below(pos) {
                Some(j) => j < pos && self.has(j as int) && forall|k: int|
                    j < k < pos ==> !#[trigger] self.has(k),
                None => forall|k: int| 0 <= k < pos ==> !#[trigger] self.has(k),
            },
        decreases pos,
    {
        if pos > 0 && !self.has(pos - 1) {
            self.lemma_below(pos - 1);
        }
    }
}

} // verus!
