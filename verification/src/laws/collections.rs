//! Laws of structured collections: arrays and mappings of the same records.

use vstd::prelude::*;

use crate::mapping::lemma_position_unique;
use crate::mapping::spec_collect;
use crate::mapping::spec_keys_distinct;
use crate::records::Collection;

verus! {

/// A mapping and an array that hold the same records give the same number of records, and
/// so the same number of calls of the target function, in whatever order the mapping's
/// records come.
pub proof fn lemma_same_records_same_count<T>(mapping: Collection<T>, array: Collection<T>)
    requires
        mapping is Keyed,
        array is Index,
        mapping.spec_records().to_multiset() == array.spec_records().to_multiset(),
    ensures
        mapping.spec_records().len() == array.spec_records().len(),
{
    mapping.spec_records().to_multiset_ensures();
    array.spec_records().to_multiset_ensures();
}

/// Pairs under keys that are all distinct make a mapping that holds them as they are: as
/// many entries as pairs, in the same order.
pub proof fn lemma_collect_distinct<T>(pairs: Seq<(Seq<char>, T)>)
    requires
        spec_keys_distinct(pairs),
    ensures
        spec_collect(pairs) == pairs,
    decreases pairs.len(),
{
    if pairs.len() > 0 {
        let front = pairs.drop_last();
        assert forall|i: int, j: int| 0 <= i < j < front.len() implies (#[trigger] front[i]).0 != (
        #[trigger] front[j]).0 by {
            assert(front[i] == pairs[i]);
            assert(front[j] == pairs[j]);
        }
        lemma_collect_distinct(front);
        assert forall|j: int| 0 <= j < front.len() implies (#[trigger] front[j]).0
            != pairs.last().0 by {
            assert(front[j] == pairs[j]);
            assert(pairs.last() == pairs[pairs.len() - 1]);
        }
        lemma_position_unique(front, pairs.last().0, front.len() as int);
        assert(front.push(pairs.last()) == pairs);
    }
}

} // verus!
