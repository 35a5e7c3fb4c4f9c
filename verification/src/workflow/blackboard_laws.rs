//! What holds of every write to a blackboard.
use crate::workflow::blackboard::{
    is_item, item_index, post_fault, posted, query_places, selected, shows, stamped, superseded,
    supersede_fault, ungrounded, unused, BlackboardError, BlackboardItem, BlackboardKind,
    BoardEntry, BoardFault, NewBlackboardItem,
};
use vstd::prelude::*;

verus! {

/// Whether the entries of `before` are still in their places, under the same ids.
spec fn keeps_places(before: Seq<BoardEntry>, after: Seq<BoardEntry>) -> bool {
    &&& before.len() <= after.len()
    &&& forall|j: int|
        0 <= j < before.len() ==> (#[trigger] after[j]).item.id@ == before[j].item.id@
            && after[j].workflow_run_id@ == before[j].workflow_run_id@
}

proof fn lemma_index_kept(
    before: Seq<BoardEntry>,
    after: Seq<BoardEntry>,
    run: Seq<char>,
    id: Seq<char>,
    k: int,
)
    requires
        0 <= k,
        keeps_places(before, after),
    ensures
        item_index(before, run, id, k) matches Some(i) ==> k <= i < before.len() && is_item(
            before[i],
            run,
            id,
        ) && item_index(after, run, id, k) == Some(i),
    decreases before.len() - k,
{
    if k < before.len() {
        assert(after[k].item.id@ == before[k].item.id@);
        if !is_item(before[k], run, id) {
            lemma_index_kept(before, after, run, id, k + 1);
        }
    }
}

proof fn lemma_index_of_the_last(
    before: Seq<BoardEntry>,
    after: Seq<BoardEntry>,
    run: Seq<char>,
    id: Seq<char>,
    k: int,
)
    requires
        0 <= k <= before.len(),
        after.len() == before.len() + 1,
        keeps_places(before, after),
        unused(before, id),
        is_item(after.last(), run, id),
    ensures
        item_index(after, run, id, k) == Some(before.len() as int),
    decreases before.len() - k,
{
    if k < before.len() {
        assert(after[k].item.id@ == before[k].item.id@);
        assert(before[k].item.id@ != id);
        lemma_index_of_the_last(before, after, run, id, k + 1);
    }
}

/// An artifact that was posted is read back: it is found by its id, it is the newest of its
/// run's live artifacts, and all earlier artifacts are as they were.
pub proof fn law_a_posted_item_is_read_back(
    before: Seq<BoardEntry>,
    after: Seq<BoardEntry>,
    run: Seq<char>,
    id: Seq<char>,
    new: NewBlackboardItem,
    r: Result<BlackboardItem, BlackboardError>,
)
    requires
        posted(before, after, run, id, new, r),
        r is Ok,
    ensures
        item_index(after, run, id, 0) matches Some(k) && shows(r->Ok_0, after[k]),
        query_places(after, run, None, false, after.len() as int)[0] == after.len() - 1,
        forall|j: int| 0 <= j < before.len() ==> #[trigger] after[j] == before[j],
{
    assert(post_fault(before, id, new) is None);
    assert forall|j: int| 0 <= j < before.len() implies #[trigger] after[j] == before[j] by {
        assert(after.drop_last()[j] == before[j]);
    }
    lemma_index_of_the_last(before, after, run, id, 0);
    assert(selected(after[after.len() - 1], run, None, false));
}

/// The entry that a supersede replaced: it is where it was, and holds what it held, but that it
/// points at its replacement.
proof fn lemma_after_superseding(
    before: Seq<BoardEntry>,
    after: Seq<BoardEntry>,
    run: Seq<char>,
    old_id: Seq<char>,
    id: Seq<char>,
    new: NewBlackboardItem,
    r: Result<BlackboardItem, BlackboardError>,
)
    requires
        superseded(before, after, run, old_id, id, new, r),
        r is Ok,
    ensures
        keeps_places(before, after),
        item_index(before, run, old_id, 0) matches Some(k) && 0 <= k < before.len()
            && item_index(after, run, old_id, 0) == Some(k) && before[k].workflow_run_id@ == run
            && before[k].item.superseded_by is None && (exists|by: String|
            by@ == id && after[k] == #[trigger] stamped(before[k], by)) && forall|j: int|
            0 <= j < before.len() && j != k ==> #[trigger] after[j] == before[j],
        unused(before, id),
{
    assert(supersede_fault(before, run, old_id, id, new) is None);
    let k = item_index(before, run, old_id, 0)->0;
    lemma_index_kept(before, before, run, old_id, 0);
    let by = choose|by: String|
        by@ == id && after.drop_last() == before.update(k, #[trigger] stamped(before[k], by));
    assert forall|j: int| 0 <= j < before.len() implies #[trigger] after[j] == if j == k {
        stamped(before[k], by)
    } else {
        before[j]
    } by {
        assert(after.drop_last()[j] == before.update(k, stamped(before[k], by))[j]);
    }
    assert(after[k] == stamped(before[k], by));
    lemma_index_kept(before, after, run, old_id, 0);
}

/// A correction replaces and never deletes: the corrected artifact keeps its place and what it
/// says, points at its replacement, is left out of the live artifacts and shown among all; every
/// other artifact is as it was; and the replacement is read back.
pub proof fn law_a_corrected_item_is_kept(
    before: Seq<BoardEntry>,
    after: Seq<BoardEntry>,
    run: Seq<char>,
    old_id: Seq<char>,
    id: Seq<char>,
    new: NewBlackboardItem,
    r: Result<BlackboardItem, BlackboardError>,
    kind: Option<BlackboardKind>,
)
    requires
        superseded(before, after, run, old_id, id, new, r),
        r is Ok,
    ensures
        ({
            let k = item_index(before, run, old_id, 0)->0;
            &&& item_index(after, run, old_id, 0) == Some(k)
            &&& exists|by: String| by@ == id && after[k] == #[trigger] stamped(before[k], by)
            &&& !selected(after[k], run, kind, false)
            &&& selected(after[k], run, None, true)
            &&& forall|j: int| 0 <= j < before.len() && j != k ==> #[trigger] after[j] == before[j]
        }),
        item_index(after, run, id, 0) matches Some(k) && shows(r->Ok_0, after[k]),
{
    lemma_after_superseding(before, after, run, old_id, id, new, r);
    lemma_index_of_the_last(before, after, run, id, 0);
}

/// An artifact is superseded once: a second correction of the same one is refused and changes
/// nothing, so a chain never forks.
pub proof fn law_an_item_is_superseded_once(
    before: Seq<BoardEntry>,
    between: Seq<BoardEntry>,
    after: Seq<BoardEntry>,
    run: Seq<char>,
    old_id: Seq<char>,
    id: Seq<char>,
    new: NewBlackboardItem,
    r: Result<BlackboardItem, BlackboardError>,
    id_again: Seq<char>,
    again: NewBlackboardItem,
    r_again: Result<BlackboardItem, BlackboardError>,
)
    requires
        superseded(before, between, run, old_id, id, new, r),
        r is Ok,
        superseded(between, after, run, old_id, id_again, again, r_again),
        !ungrounded(again),
    ensures
        after == between,
        r_again matches Err(e) && e@ == BoardFault::AlreadySuperseded(old_id),
{
    lemma_after_superseding(before, between, run, old_id, id, new, r);
}

} // verus!
