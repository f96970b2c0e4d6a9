//! One reading of every core's utilization.

use vstd::prelude::*;

verus! {

/// One reading of all cores, in core order.
///
/// Each entry is the IEEE-754 single-precision bit pattern of a utilization
/// percentage. The relay never interprets an entry: it hands on the bits
/// that the metrics source produced, so a value above one hundred percent
/// passes through as it came.
#[derive(Debug)]
pub struct Snapshot {
    cores: Vec<u32>,
}

impl View for Snapshot {
    type V = Seq<u32>;

    closed spec fn view(&self) -> Seq<u32> {
        self.cores@
    }
}

impl Snapshot {
    /// Wraps the per-core bit patterns, keeping their order.
    pub fn new(cores: Vec<u32>) -> (snapshot: Snapshot)
        ensures
            snapshot@ == cores@,
    {
        Snapshot { cores }
    }

    /// The number of cores in the reading.
    pub fn len(&self) -> (n: usize)
        ensures
            n == self@.len(),
    {
        self.cores.len()
    }

    /// Whether the reading covers no core at all.
    pub fn is_empty(&self) -> (empty: bool)
        ensures
            empty == (self@.len() == 0),
    {
        self.cores.len() == 0
    }

    /// The bit pattern of core `index`, or `None` past the last core.
    pub fn usage_bits(&self, index: usize) -> (bits: Option<u32>)
        ensures
            bits == (if index < self@.len() {
                Some(self@[index as int])
            } else {
                None
            }),
    {
        if index < self.cores.len() {
            Some(self.cores[index])
        } else {
            None
        }
    }

    /// The per-core bit patterns, in core order.
    pub fn cores(&self) -> (cores: &Vec<u32>)
        ensures
            cores@ == self@,
    {
        &self.cores
    }

    /// Gives the per-core bit patterns back, in core order.
    pub fn into_cores(self) -> (cores: Vec<u32>)
        ensures
            cores@ == self@,
    {
        self.cores
    }

    /// Whether two readings hold the same values in the same order.
    pub fn same_as(&self, other: &Snapshot) -> (same: bool)
        ensures
            same == (self@ == other@),
    {
        if self.cores.len() != other.cores.len() {
            return false;
        }
        let mut i: usize = 0;
        while i < self.cores.len()
            invariant
                self.cores.len() == other.cores.len(),
                i <= self.cores.len(),
                forall|k: int| 0 <= k < i ==> self.cores@[k] == other.cores@[k],
            decreases self.cores.len() - i,
        {
            if self.cores[i] != other.cores[i] {
                return false;
            }
            i += 1;
        }
        assert(self.cores@ =~= other.cores@);
        true
    }
}

impl Clone for Snapshot {
    /// A second reading with the same values in the same order.
    fn clone(&self) -> (copy: Snapshot)
        ensures
            copy@ == self@,
    {
        let mut cores: Vec<u32> = Vec::new();
        let mut i: usize = 0;
        while i < self.cores.len()
            invariant
                i <= self.cores.len(),
                cores@ == self.cores@.subrange(0, i as int),
            decreases self.cores.len() - i,
        {
            cores.push(self.cores[i]);
            assert(cores@ =~= self.cores@.subrange(0, i + 1));
            i += 1;
        }
        assert(cores@ =~= self.cores@);
        Snapshot { cores }
    }
}

impl PartialEq for Snapshot {
    fn eq(&self, other: &Snapshot) -> (same: bool) {
        self.same_as(other)
    }
}

impl vstd::std_specs::cmp::PartialEqSpecImpl for Snapshot {
    open spec fn obeys_eq_spec() -> bool {
        true
    }

    open spec fn eq_spec(&self, other: &Snapshot) -> bool {
        self@ == other@
    }
}

} // verus!
