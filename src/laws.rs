use vstd::prelude::*;

use crate::registry::{mint_step, record_exists, Record};

verus! {

/// The records after `calls`, each an authorized `mint_nft` with its
/// arguments, starting from `start`.
pub open spec fn mint_all<P, T>(start: Seq<Record<P, T>>, calls: Seq<Record<P, T>>) -> Seq<
    Record<P, T>,
>
    decreases calls.len(),
{
    if calls.len() == 0 {
        start
    } else {
        mint_step(mint_all(start, calls.drop_last()), calls.last()).0
    }
}

/// The id that the `i`-th of `calls` returns, starting from `start`.
pub open spec fn id_of_call<P, T>(start: Seq<Record<P, T>>, calls: Seq<Record<P, T>>, i: int) -> int {
    mint_step(mint_all(start, calls.take(i)), calls[i]).1
}

/// From a fresh registry, a run of creations leaves exactly their
/// arguments, in call order.
pub proof fn lemma_run_records<P, T>(calls: Seq<Record<P, T>>)
    ensures
        mint_all(Seq::empty(), calls) == calls,
    decreases calls.len(),
{
    if calls.len() > 0 {
        lemma_run_records(calls.drop_last());
        assert(calls.drop_last().push(calls.last()) =~= calls);
    }
}

/// From a fresh registry, `N` authorized creations leave a total of `N`,
/// and they return the ids `1..=N` in call order: no gap, no repeat.
pub proof fn lemma_sequential_ids<P, T>(calls: Seq<Record<P, T>>)
    ensures
        mint_all(Seq::empty(), calls).len() == calls.len(),
        forall|i: int| 0 <= i < calls.len() ==> #[trigger] id_of_call(Seq::empty(), calls, i) == i + 1,
{
    lemma_run_records(calls);
    assert forall|i: int| 0 <= i < calls.len() implies #[trigger] id_of_call(
        Seq::empty(),
        calls,
        i,
    ) == i + 1 by {
        lemma_run_records(calls.take(i));
    }
}

/// Every record holds the arguments of the creation that produced it, and
/// later creations leave it unchanged: after the first `j` calls, record
/// `i + 1` (for `i < j`) is the `i`-th call's owner, name and image.
pub proof fn lemma_records_kept<P, T>(calls: Seq<Record<P, T>>)
    ensures
        forall|i: int, j: int|
            0 <= i < j <= calls.len() ==> {
                &&& record_exists(#[trigger] mint_all(Seq::empty(), calls.take(j)), i + 1)
                &&& mint_all(Seq::empty(), calls.take(j))[i] == #[trigger] calls[i]
            },
{
    assert forall|i: int, j: int| 0 <= i < j <= calls.len() implies {
        &&& record_exists(#[trigger] mint_all(Seq::empty(), calls.take(j)), i + 1)
        &&& mint_all(Seq::empty(), calls.take(j))[i] == #[trigger] calls[i]
    } by {
        lemma_run_records(calls.take(j));
    }
}

/// One more creation leaves every existing record as it was.
pub proof fn lemma_mint_keeps_records<P, T>(
    records: Seq<Record<P, T>>,
    rec: Record<P, T>,
    id: int,
)
    requires
        record_exists(records, id),
    ensures
        record_exists(mint_step(records, rec).0, id),
        mint_step(records, rec).0[id - 1] == records[id - 1],
{
}

/// Id 0 never names a record, nor does any id beyond the total, in every
/// state, the empty one included.
pub proof fn lemma_absent_ids<P, T>(records: Seq<Record<P, T>>, id: int)
    ensures
        !record_exists(records, 0),
        id > records.len() ==> !record_exists(records, id),
{
}

} // verus!
