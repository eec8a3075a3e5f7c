//! Growable list of data types, kept as a chain of arrays.
//!
//! Data types are referred to by their type IDs. New items go into free room in the last array;
//! when that is full, a new array of twice the capacity is appended, so that items never move
//! once placed.
use vstd::prelude::*;

use crate::ua::{NodeId, NodeIdView};

verus! {

/// Capacity of the first array in the chain.
pub const INITIAL_ARRAY_CAPACITY: usize = 4;

/// Items of a chain of arrays, in order.
pub open spec fn flatten(arrays: Seq<Vec<NodeId>>) -> Seq<NodeIdView>
    decreases arrays.len(),
{
    if arrays.len() == 0 {
        Seq::empty()
    } else {
        flatten(arrays.drop_last()) + arrays.last()@.map_values(|n: NodeId| n@)
    }
}

/// A prefix of the chain holds a prefix of its items.
pub proof fn lemma_flatten_prefix(arrays: Seq<Vec<NodeId>>, i: int)
    requires
        0 <= i <= arrays.len(),
    ensures
        flatten(arrays.take(i)).len() <= flatten(arrays).len(),
        flatten(arrays.take(i)) =~= flatten(arrays).take(flatten(arrays.take(i)).len() as int),
    decreases arrays.len(),
{
    if i < arrays.len() {
        assert(arrays.take(i) =~= arrays.drop_last().take(i));
        lemma_flatten_prefix(arrays.drop_last(), i);
    } else {
        assert(arrays.take(i) =~= arrays);
    }
}

/// Chain of arrays of data types (by type ID), growing by doubling capacity.
pub struct DataTypeArray {
    arrays: Vec<Vec<NodeId>>,
    last_capacity: usize,
}

impl View for DataTypeArray {
    type V = Seq<NodeIdView>;

    closed spec fn view(&self) -> Seq<NodeIdView> {
        flatten(self.arrays@)
    }
}

impl DataTypeArray {
    /// The chain is never empty; every array but the last is full and not empty; the last one
    /// has room up to the current capacity and is empty only when it is the only one.
    pub closed spec fn wf(&self) -> bool {
        &&& self.arrays.len() >= 1
        &&& self.last_capacity >= 1
        &&& self.arrays@.last().len() <= self.last_capacity
        &&& (self.arrays.len() > 1 ==> self.arrays@.last().len() >= 1)
        &&& forall|i: int| 0 <= i < self.arrays.len() - 1 ==> #[trigger] self.arrays@[i].len() >= 1
        &&& self@.len() <= usize::MAX
    }

    /// Capacity of the last array in the chain.
    pub closed spec fn spec_last_capacity(&self) -> nat {
        self.last_capacity as nat
    }

    /// Number of items in the last array of the chain.
    pub closed spec fn spec_last_len(&self) -> nat {
        self.arrays@.last()@.len()
    }

    /// Number of arrays in the chain.
    pub closed spec fn spec_array_count(&self) -> nat {
        self.arrays@.len()
    }

    /// Creates an empty chain with one array of the initial capacity.
    pub fn new() -> (r: Self)
        ensures
            r.wf(),
            r@ == Seq::<NodeIdView>::empty(),
            r.spec_last_capacity() == INITIAL_ARRAY_CAPACITY,
            r.spec_array_count() == 1,
    {
        let mut arrays: Vec<Vec<NodeId>> = Vec::new();
        arrays.push(Vec::new());
        let r = DataTypeArray { arrays, last_capacity: INITIAL_ARRAY_CAPACITY };
        proof {
            assert(r.arrays@.drop_last() =~= Seq::<Vec<NodeId>>::empty());
            assert(flatten(r.arrays@.drop_last()) =~= Seq::<NodeIdView>::empty());
            assert(r.arrays@.last()@.map_values(|n: NodeId| n@) =~= Seq::<NodeIdView>::empty());
            assert(r@ =~= Seq::<NodeIdView>::empty());
        }
        r
    }

    /// Appends a data type. When the last array is full, a new array with twice its capacity
    /// (saturating) is started first.
    pub fn push(&mut self, type_id: NodeId)
        requires
            old(self).wf(),
            old(self)@.len() < usize::MAX,
        ensures
            final(self).wf(),
            final(self)@ == old(self)@.push(type_id@),
            old(self).spec_last_len() < old(self).spec_last_capacity() ==> {
                &&& final(self).spec_last_capacity() == old(self).spec_last_capacity()
                &&& final(self).spec_array_count() == old(self).spec_array_count()
            },
            old(self).spec_last_len() == old(self).spec_last_capacity() ==> {
                &&& final(self).spec_last_capacity() == (if old(self).spec_last_capacity() * 2
                    <= usize::MAX {
                    old(self).spec_last_capacity() * 2
                } else {
                    usize::MAX as nat
                })
                &&& final(self).spec_array_count() == old(self).spec_array_count() + 1
            },
    {
        let ghost old_arrays = self.arrays@;
        let ghost v = type_id@;
        let n = self.arrays.len();
        let last_len = self.arrays[n - 1].len();
        if last_len < self.last_capacity {
            let mut last = self.arrays.pop().unwrap();
            proof {
                assert(self.arrays@ =~= old_arrays.drop_last());
            }
            last.push(type_id);
            self.arrays.push(last);
            proof {
                assert(self.arrays@.drop_last() =~= old_arrays.drop_last());
                assert(self.arrays@.last()@.map_values(|n: NodeId| n@) =~= old_arrays.last()@.map_values(
                    |n: NodeId| n@,
                ).push(v));
                assert(self@ =~= flatten(old_arrays).push(v));
                assert forall|i: int| 0 <= i < self.arrays.len() - 1 implies #[trigger] self.arrays@[i].len()
                    >= 1 by {
                    assert(self.arrays@[i] == old_arrays[i]);
                }
            }
        } else {
            let next_capacity = match self.last_capacity.checked_mul(2) {
                Some(c) => c,
                None => usize::MAX,
            };
            let mut fresh: Vec<NodeId> = Vec::new();
            fresh.push(type_id);
            self.arrays.push(fresh);
            self.last_capacity = next_capacity;
            proof {
                assert(self.arrays@.drop_last() =~= old_arrays);
                assert(self.arrays@.last()@.map_values(|n: NodeId| n@) =~= seq![v]);
                assert(self@ =~= flatten(old_arrays).push(v));
                assert forall|i: int| 0 <= i < self.arrays.len() - 1 implies #[trigger] self.arrays@[i].len()
                    >= 1 by {
                    assert(self.arrays@[i] == old_arrays[i]);
                }
            }
        }
    }

    /// Number of data types in the chain.
    pub fn len(&self) -> (r: usize)
        requires
            self.wf(),
        ensures
            r == self@.len(),
    {
        let mut sum: usize = 0;
        let mut i: usize = 0;
        while i < self.arrays.len()
            invariant
                self.wf(),
                i <= self.arrays.len(),
                sum == flatten(self.arrays@.take(i as int)).len(),
            decreases self.arrays.len() - i,
        {
            proof {
                assert(self.arrays@.take(i + 1).drop_last() =~= self.arrays@.take(i as int));
                lemma_flatten_prefix(self.arrays@, i + 1);
            }
            sum = sum + self.arrays[i].len();
            i = i + 1;
        }
        proof {
            assert(self.arrays@.take(i as int) =~= self.arrays@);
        }
        sum
    }

    /// Whether the chain holds no data type.
    pub fn is_empty(&self) -> (r: bool)
        requires
            self.wf(),
        ensures
            r == (self@.len() == 0),
    {
        let n = self.arrays.len();
        proof {
            let ghost mapped = self.arrays@.last()@.map_values(|n: NodeId| n@);
            assert(self@ == flatten(self.arrays@.drop_last()) + mapped);
            assert(self@.len() == flatten(self.arrays@.drop_last()).len() + mapped.len());
            if n == 1 {
                assert(self.arrays@.drop_last() =~= Seq::<Vec<NodeId>>::empty());
                assert(flatten(self.arrays@.drop_last()).len() == 0);
            }
        }
        self.arrays[n - 1].len() == 0
    }

    /// Whether a data type with the given type ID is in the chain.
    pub fn contains(&self, type_id: &NodeId) -> (r: bool)
        requires
            self.wf(),
        ensures
            r == self@.contains(type_id@),
    {
        let mut i: usize = 0;
        while i < self.arrays.len()
            invariant
                i <= self.arrays.len(),
                !flatten(self.arrays@.take(i as int)).contains(type_id@),
            decreases self.arrays.len() - i,
        {
            let array = &self.arrays[i];
            let ghost mapped = array@.map_values(|n: NodeId| n@);
            let mut j: usize = 0;
            while j < array.len()
                invariant
                    i < self.arrays.len(),
                    *array == self.arrays@[i as int],
                    j <= array.len(),
                    mapped == array@.map_values(|n: NodeId| n@),
                    forall|k: int| 0 <= k < j ==> mapped[k] != type_id@,
                decreases array.len() - j,
            {
                if array[j].equals(type_id) {
                    proof {
                        let ghost prefix = self.arrays@.take(i + 1);
                        assert(prefix.drop_last() =~= self.arrays@.take(i as int));
                        assert(flatten(prefix)[flatten(self.arrays@.take(i as int)).len() + j]
                            == type_id@);
                        lemma_flatten_prefix(self.arrays@, i + 1);
                        let ghost at = flatten(self.arrays@.take(i as int)).len() + j;
                        assert(flatten(self.arrays@)[at] == type_id@);
                    }
                    return true;
                }
                j = j + 1;
            }
            proof {
                let ghost prefix = self.arrays@.take(i + 1);
                assert(prefix.drop_last() =~= self.arrays@.take(i as int));
                assert(prefix.last() == self.arrays@[i as int]);
                let ghost before = flatten(self.arrays@.take(i as int));
                assert forall|k: int| 0 <= k < flatten(prefix).len() implies flatten(prefix)[k]
                    != type_id@ by {
                    if k < before.len() {
                        assert(flatten(prefix)[k] == before[k]);
                        assert(before.contains(before[k]));
                    } else {
                        assert(flatten(prefix)[k] == mapped[k - before.len()]);
                    }
                }
            }
            i = i + 1;
        }
        proof {
            assert(self.arrays@.take(i as int) =~= self.arrays@);
        }
        false
    }
}

} // verus!
