//! Sums of donation batches, shared by both variants' accumulation laws.

use vstd::prelude::*;

verus! {

/// The sum of a batch of donation amounts.
pub open spec fn sum_of(amounts: Seq<i128>) -> int
    decreases amounts.len(),
{
    if amounts.len() == 0 {
        0
    } else {
        amounts[0] + sum_of(amounts.drop_first())
    }
}

/// A sum of positive amounts is non-negative.
pub proof fn lemma_sum_of_positives_nonneg(amounts: Seq<i128>)
    requires
        forall|i: int| 0 <= i < amounts.len() ==> #[trigger] amounts[i] > 0,
    ensures
        sum_of(amounts) >= 0,
    decreases amounts.len(),
{
    if amounts.len() > 0 {
        assert(amounts[0] > 0);
        assert(forall|i: int|
            0 <= i < amounts.drop_first().len() ==> #[trigger] amounts.drop_first()[i]
                == amounts[i + 1]);
        lemma_sum_of_positives_nonneg(amounts.drop_first());
    }
}

/// Removing one amount from a batch takes exactly its value out of the sum.
pub proof fn lemma_sum_of_remove(amounts: Seq<i128>, i: int)
    requires
        0 <= i < amounts.len(),
    ensures
        sum_of(amounts) == amounts[i] + sum_of(amounts.remove(i)),
    decreases amounts.len(),
{
    if i == 0 {
        assert(amounts.remove(0) =~= amounts.drop_first());
    } else {
        assert(amounts.remove(i).drop_first() =~= amounts.drop_first().remove(i - 1));
        lemma_sum_of_remove(amounts.drop_first(), i - 1);
    }
}

/// The sum of a batch depends only on which amounts occur, with their
/// multiplicities — not on their order.
pub proof fn lemma_sum_of_permutation(amounts1: Seq<i128>, amounts2: Seq<i128>)
    requires
        amounts1.to_multiset() == amounts2.to_multiset(),
    ensures
        sum_of(amounts1) == sum_of(amounts2),
    decreases amounts1.len(),
{
    broadcast use vstd::seq_lib::group_to_multiset_ensures;

    if amounts1.len() == 0 {
        assert(amounts1.len() == amounts1.to_multiset().len());
        assert(amounts2.len() == amounts2.to_multiset().len());
    } else {
        let x = amounts1[0];
        assert(amounts1.contains(x)) by {
            assert(amounts1[0] == x);
        }
        assert(amounts1.to_multiset().count(x) > 0);
        assert(amounts2.to_multiset().count(x) > 0);
        assert(amounts2.contains(x));
        let j = choose|j: int| 0 <= j < amounts2.len() && amounts2[j] == x;
        assert(amounts1.remove(0) =~= amounts1.drop_first());
        assert(amounts1.drop_first().to_multiset() =~= amounts2.remove(j).to_multiset());
        lemma_sum_of_remove(amounts2, j);
        lemma_sum_of_permutation(amounts1.drop_first(), amounts2.remove(j));
    }
}

/// If every amount of one batch occurs in a second batch with the same
/// multiplicities, and the second batch's amounts are all positive, so are
/// the first's.
pub proof fn lemma_permutation_keeps_positivity(amounts1: Seq<i128>, amounts2: Seq<i128>)
    requires
        amounts1.to_multiset() == amounts2.to_multiset(),
        forall|i: int| 0 <= i < amounts1.len() ==> #[trigger] amounts1[i] > 0,
    ensures
        forall|i: int| 0 <= i < amounts2.len() ==> #[trigger] amounts2[i] > 0,
{
    broadcast use vstd::seq_lib::group_to_multiset_ensures;

    assert forall|i: int| 0 <= i < amounts2.len() implies #[trigger] amounts2[i] > 0 by {
        assert(amounts2.contains(amounts2[i]));
        assert(amounts2.to_multiset().count(amounts2[i]) > 0);
        assert(amounts1.to_multiset().count(amounts2[i]) > 0);
        assert(amounts1.contains(amounts2[i]));
        let k = choose|k: int| 0 <= k < amounts1.len() && amounts1[k] == amounts2[i];
        assert(amounts1[k] > 0);
    }
}

} // verus!
