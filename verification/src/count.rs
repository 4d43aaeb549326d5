//! Counting the flags that are set in a sequence.

use vstd::prelude::*;

verus! {

/// The number of flags set in `flags`.
pub open spec fn spec_count_true(flags: Seq<bool>) -> nat
    decreases flags.len(),
{
    if flags.len() == 0 {
        0
    } else {
        spec_count_true(flags.drop_last()) + if flags.last() {
            1nat
        } else {
            0nat
        }
    }
}

/// Changing one entry changes the count by that entry alone.
pub proof fn lemma_count_true_update(flags: Seq<bool>, i: int, value: bool)
    requires
        0 <= i < flags.len(),
    ensures
        spec_count_true(flags.update(i, value)) + (if flags[i] {
            1nat
        } else {
            0nat
        }) == spec_count_true(flags) + (if value {
            1nat
        } else {
            0nat
        }),
    decreases flags.len(),
{
    let updated = flags.update(i, value);
    if i == flags.len() - 1 {
        assert(updated.drop_last() =~= flags.drop_last());
    } else {
        assert(updated.drop_last() =~= flags.drop_last().update(i, value));
        lemma_count_true_update(flags.drop_last(), i, value);
    }
}

/// No more entries are flags than there are entries.
pub proof fn lemma_count_true_bound(flags: Seq<bool>)
    ensures
        spec_count_true(flags) <= flags.len(),
    decreases flags.len(),
{
    if flags.len() > 0 {
        lemma_count_true_bound(flags.drop_last());
    }
}

/// Where no flag is set the count is zero.
pub proof fn lemma_count_none(flags: Seq<bool>)
    requires
        forall|i: int| 0 <= i < flags.len() ==> !flags[i],
    ensures
        spec_count_true(flags) == 0,
    decreases flags.len(),
{
    if flags.len() > 0 {
        lemma_count_none(flags.drop_last());
    }
}

} // verus!
