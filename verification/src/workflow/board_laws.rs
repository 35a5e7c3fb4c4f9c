//! What may be posted to a blackboard, what is then on it, and what a query shows of it.
use crate::workflow::blackboard::{
    chain_from, item_index, leads_to, lineage, posted, predecessor, query_places, root, sound,
    superseded, BlackboardError, BlackboardItem, BlackboardKind, BoardEntry, BoardFault,
    NewBlackboardItem,
};
use vstd::prelude::*;

verus! {

/// A finding, a decision, a test result, a proposed patch and a code location are claims: without
/// evidence they are refused, whether posted or put in the place of another, and nothing changes.
pub proof fn law_claims_need_evidence(
    before: Seq<BoardEntry>,
    after: Seq<BoardEntry>,
    run: Seq<char>,
    old_id: Seq<char>,
    id: Seq<char>,
    new: NewBlackboardItem,
    r: Result<BlackboardItem, BlackboardError>,
)
    requires
        posted(before, after, run, id, new, r) || superseded(before, after, run, old_id, id, new, r),
        new.evidence@.len() == 0,
        new.kind == BlackboardKind::Finding || new.kind == BlackboardKind::Decision || new.kind
            == BlackboardKind::TestResult || new.kind == BlackboardKind::ProposedPatch || new.kind
            == BlackboardKind::CodeLocation,
    ensures
        r matches Err(e) && e@ is EvidenceRequired,
        after == before,
{
}

/// Anything else is taken: what has evidence, and hypotheses, drafts and open questions without.
/// It is then the last item of the board, under its run and id, at the first revision, with what
/// it was posted with and superseded by nothing; the rest is as it was.
pub proof fn law_what_is_posted_is_on_the_board(
    before: Seq<BoardEntry>,
    after: Seq<BoardEntry>,
    run: Seq<char>,
    id: Seq<char>,
    new: NewBlackboardItem,
    r: Result<BlackboardItem, BlackboardError>,
)
    requires
        posted(before, after, run, id, new, r),
        new.evidence@.len() > 0 || new.kind == BlackboardKind::Hypothesis || new.kind
            == BlackboardKind::DocumentDraft || new.kind == BlackboardKind::OpenQuestion,
        forall|i: int| 0 <= i < before.len() ==> (#[trigger] before[i]).item.id@ != id,
    ensures
        r is Ok,
        after.len() == before.len() + 1,
        forall|i: int| 0 <= i < before.len() ==> #[trigger] after[i] == before[i],
        ({
            let entry = after[before.len() as int];
            &&& entry.workflow_run_id@ == run
            &&& entry.item.id@ == id
            &&& entry.item.kind == new.kind
            &&& entry.item.payload == new.payload
            &&& entry.item.author == new.author
            &&& entry.item.confidence == new.confidence
            &&& entry.item.evidence == new.evidence
            &&& entry.item.revision == 1
            &&& entry.item.superseded_by is None
            &&& r->Ok_0.id@ == id
            &&& r->Ok_0.kind == new.kind
            &&& r->Ok_0.payload@ == new.payload@
            &&& r->Ok_0.author@ == new.author@
            &&& r->Ok_0.confidence == new.confidence
            &&& r->Ok_0.revision == 1
            &&& r->Ok_0.superseded_by is None
        }),
{
    assert forall|i: int| 0 <= i < before.len() implies #[trigger] after[i] == before[i] by {
        assert(after.drop_last()[i] == after[i]);
    }
}

proof fn lemma_item(entries: Seq<BoardEntry>, run: Seq<char>, id: Seq<char>, k: int)
    requires
        0 <= k <= entries.len(),
    ensures
        match item_index(entries, run, id, k) {
            Some(i) => k <= i < entries.len() && entries[i].workflow_run_id@ == run
                && entries[i].item.id@ == id,
            None => forall|i: int|
                k <= i < entries.len() ==> !((#[trigger] entries[i]).workflow_run_id@ == run
                    && entries[i].item.id@ == id),
        },
    decreases entries.len() - k,
{
    if k < entries.len() {
        lemma_item(entries, run, id, k + 1);
    }
}

/// An item is found by its run and its id, and not found only where the run has no such item.
pub proof fn law_items_are_found_by_run_and_id(
    entries: Seq<BoardEntry>,
    run: Seq<char>,
    id: Seq<char>,
)
    ensures
        match item_index(entries, run, id, 0) {
            Some(i) => 0 <= i < entries.len() && entries[i].workflow_run_id@ == run
                && entries[i].item.id@ == id,
            None => forall|i: int|
                0 <= i < entries.len() ==> !((#[trigger] entries[i]).workflow_run_id@ == run
                    && entries[i].item.id@ == id),
        },
{
    lemma_item(entries, run, id, 0);
}

/// A live item of the run is superseded: it stays where it was and as it was, but that it names
/// its replacement, which is the last item of the board, one revision later, with what it was
/// posted with.
pub proof fn law_what_supersedes_is_on_the_board(
    before: Seq<BoardEntry>,
    after: Seq<BoardEntry>,
    run: Seq<char>,
    old_id: Seq<char>,
    id: Seq<char>,
    new: NewBlackboardItem,
    r: Result<BlackboardItem, BlackboardError>,
    k: int,
)
    requires
        superseded(before, after, run, old_id, id, new, r),
        new.evidence@.len() > 0 || new.kind == BlackboardKind::Hypothesis || new.kind
            == BlackboardKind::DocumentDraft || new.kind == BlackboardKind::OpenQuestion,
        0 <= k < before.len(),
        before[k].workflow_run_id@ == run,
        before[k].item.id@ == old_id,
        before[k].item.superseded_by is None,
        before[k].item.revision < u32::MAX,
        forall|i: int|
            0 <= i < before.len() && i != k ==> (#[trigger] before[i]).item.id@ != old_id,
        forall|i: int| 0 <= i < before.len() ==> (#[trigger] before[i]).item.id@ != id,
    ensures
        r is Ok,
        after.len() == before.len() + 1,
        forall|i: int| 0 <= i < before.len() && i != k ==> #[trigger] after[i] == before[i],
        after[k].item.superseded_by matches Some(by) && by@ == id,
        after[k].workflow_run_id == before[k].workflow_run_id,
        after[k].item == (BlackboardItem {
            superseded_by: after[k].item.superseded_by,
            ..before[k].item
        }),
        ({
            let entry = after[before.len() as int];
            &&& entry.workflow_run_id@ == run
            &&& entry.item.id@ == id
            &&& entry.item.kind == new.kind
            &&& entry.item.payload == new.payload
            &&& entry.item.author == new.author
            &&& entry.item.confidence == new.confidence
            &&& entry.item.evidence == new.evidence
            &&& entry.item.revision == before[k].item.revision + 1
            &&& entry.item.superseded_by is None
            &&& r->Ok_0.id@ == id
            &&& r->Ok_0.kind == new.kind
            &&& r->Ok_0.payload@ == new.payload@
            &&& r->Ok_0.revision == before[k].item.revision + 1
        }),
{
    lemma_item(before, run, old_id, 0);
    assert(item_index(before, run, old_id, 0) == Some(k));
    let by = choose|by: String|
        by@ == id && after.drop_last() == before.update(
            k,
            #[trigger] crate::workflow::blackboard::stamped(before[k], by),
        );
    assert forall|i: int| 0 <= i < before.len() implies #[trigger] after[i] == if i == k {
        crate::workflow::blackboard::stamped(before[k], by)
    } else {
        before[i]
    } by {
        assert(after.drop_last()[i] == after[i]);
    }
}

/// What the run does not have, or has already replaced, is not superseded, and nothing changes.
pub proof fn law_only_live_items_are_superseded(
    before: Seq<BoardEntry>,
    after: Seq<BoardEntry>,
    run: Seq<char>,
    old_id: Seq<char>,
    id: Seq<char>,
    new: NewBlackboardItem,
    r: Result<BlackboardItem, BlackboardError>,
)
    requires
        superseded(before, after, run, old_id, id, new, r),
        new.evidence@.len() > 0,
        forall|i: int|
            0 <= i < before.len() && (#[trigger] before[i]).workflow_run_id@ == run
                && before[i].item.id@ == old_id ==> before[i].item.superseded_by is Some,
    ensures
        after == before,
        r matches Err(e) && (e@ == BoardFault::AlreadySuperseded(old_id) || e@
            == BoardFault::NotFound(old_id)),
        r matches Err(e) && (e@ == BoardFault::NotFound(old_id) <==> forall|i: int|
            0 <= i < before.len() ==> !((#[trigger] before[i]).workflow_run_id@ == run
                && before[i].item.id@ == old_id)),
{
    lemma_item(before, run, old_id, 0);
    if let Some(i) = item_index(before, run, old_id, 0) {
        assert(before[i].workflow_run_id@ == run);
    }
}

/// A query shows exactly what it asks for, the newest first: the items of the run, of the kind if
/// one is given, and the superseded ones only where they are asked for.
pub proof fn law_a_query_shows_what_it_asks_for(
    entries: Seq<BoardEntry>,
    run: Seq<char>,
    kind: Option<BlackboardKind>,
    include_superseded: bool,
    n: int,
)
    requires
        0 <= n <= entries.len(),
    ensures
        ({
            let shown = query_places(entries, run, kind, include_superseded, n);
            &&& forall|a: int, b: int|
                0 <= a < b < shown.len() ==> #[trigger] shown[a] > #[trigger] shown[b]
            &&& forall|p: int|
                #[trigger] shown.contains(p) <==> {
                    &&& 0 <= p < n
                    &&& entries[p].workflow_run_id@ == run
                    &&& include_superseded || entries[p].item.superseded_by is None
                    &&& kind matches Some(k) ==> entries[p].item.kind == k
                }
        }),
    decreases n,
{
    let shown = query_places(entries, run, kind, include_superseded, n);
    crate::workflow::blackboard::law_boards_are_isolated(
        entries,
        run,
        kind,
        include_superseded,
        n,
    );
    if n > 0 {
        law_a_query_shows_what_it_asks_for(entries, run, kind, include_superseded, n - 1);
        let rest = query_places(entries, run, kind, include_superseded, n - 1);
        if shown.len() > rest.len() {
            assert forall|a: int, b: int| 0 <= a < b < shown.len() implies #[trigger] shown[a]
                > #[trigger] shown[b] by {
                assert(shown[b] == rest[b - 1]);
                assert(rest.contains(rest[b - 1]));
                if a > 0 {
                    assert(shown[a] == rest[a - 1]);
                }
            }
        }
    }
}

proof fn lemma_before(entries: Seq<BoardEntry>, j: int, n: int)
    requires
        0 <= n <= entries.len(),
    ensures
        match predecessor(entries, j, n) {
            Some(i) => 0 <= i < n && leads_to(entries, i, j),
            None => forall|i: int| 0 <= i < n ==> !#[trigger] leads_to(entries, i, j),
        },
    decreases n,
{
    if n > 0 && !leads_to(entries, n - 1, j) {
        lemma_before(entries, j, n - 1);
    }
}

proof fn lemma_root(entries: Seq<BoardEntry>, j: int)
    requires
        sound(entries),
        0 <= j < entries.len(),
    ensures
        0 <= root(entries, j) <= j,
        chain_from(entries, root(entries, j)).contains(j),
        forall|i: int| 0 <= i < entries.len() ==> !#[trigger] leads_to(entries, i, root(entries, j)),
    decreases j,
{
    lemma_before(entries, j, j);
    match predecessor(entries, j, j) {
        Some(i) => {
            lemma_root(entries, i);
            lemma_passes(entries, root(entries, i), i, j);
        },
        None => {
            crate::workflow::blackboard::law_a_history_ends_at_the_live_item(entries, j);
            assert(chain_from(entries, j)[0] == j);
            assert forall|i: int| 0 <= i < entries.len() implies !#[trigger] leads_to(
                entries,
                i,
                j,
            ) by {
                if leads_to(entries, i, j) {
                    crate::workflow::blackboard::law_history_is_the_same_from_every_link(
                        entries,
                        i,
                        j,
                    );
                }
            }
        },
    }
}

proof fn lemma_passes(entries: Seq<BoardEntry>, a: int, i: int, j: int)
    requires
        sound(entries),
        0 <= a < entries.len(),
        0 <= i < entries.len(),
        0 <= j < entries.len(),
        chain_from(entries, a).contains(i),
        leads_to(entries, i, j),
    ensures
        chain_from(entries, a).contains(j),
{
    let all = chain_from(entries, a);
    crate::workflow::blackboard::law_a_history_ends_at_the_live_item(entries, a);
    let k = all.index_of(i);
    if k == all.len() - 1 {
        assert(entries[all.last()].item.superseded_by is None);
    } else {
        assert(crate::workflow::blackboard::corrected_next(entries, all, k));
        let next = all[k + 1];
        assert(leads_to(entries, i, next));
        assert(entries[next].item.id@ == entries[j].item.id@);
        lemma_in_range(entries, a, k + 1);
        if next < j {
            assert(entries[next].item.id@ != entries[j].item.id@);
        } else if j < next {
            assert(entries[j].item.id@ != entries[next].item.id@);
        }
        assert(all[k + 1] == j);
    }
}

proof fn lemma_in_range(entries: Seq<BoardEntry>, a: int, k: int)
    requires
        0 <= a < entries.len(),
        0 <= k < chain_from(entries, a).len(),
    ensures
        0 <= chain_from(entries, a)[k] < entries.len(),
    decreases entries.len() - a,
{
    if let Some(j) = crate::workflow::blackboard::successor(entries, a, a + 1) {
        if a < j < entries.len() && k > 0 {
            lemma_in_range(entries, j, k - 1);
            assert(chain_from(entries, a)[k] == chain_from(entries, j)[k - 1]);
        }
    }
}

/// The history of an item is the whole chain it is in: it begins with one that replaced nothing,
/// each that follows replaced the one before it, the item is among them, and it ends with one that
/// nothing has replaced.
#[verifier::spinoff_prover]
#[verifier::rlimit(40)]
pub proof fn law_a_history_is_the_whole_chain(
    entries: Seq<BoardEntry>,
    run: Seq<char>,
    anchor: Seq<char>,
    k: int,
)
    requires
        sound(entries),
        0 <= k < entries.len(),
        entries[k].workflow_run_id@ == run,
        entries[k].item.id@ == anchor,
    ensures
        ({
            let places = lineage(entries, run, anchor);
            &&& places.contains(k)
            &&& places.len() > 0
            &&& forall|i: int|
                0 <= i < entries.len() && (#[trigger] entries[i]).workflow_run_id@
                    == entries[places[0]].workflow_run_id@ ==> !(
                entries[i].item.superseded_by matches Some(by) && by@
                    == entries[places[0]].item.id@)
            &&& forall|a: int|
                0 <= a < places.len() - 1 ==> (entries[#[trigger] places[a]].item.superseded_by
                    matches Some(by) && by@ == entries[places[a + 1]].item.id@)
                    && entries[places[a + 1]].item.revision == entries[places[a]].item.revision + 1
            &&& entries[places.last()].item.superseded_by is None
        }),
{
    lemma_item(entries, run, anchor, 0);
    let i = item_index(entries, run, anchor, 0)->0;
    if i < k {
        assert(entries[i].item.id@ != entries[k].item.id@);
    } else if k < i {
        assert(entries[k].item.id@ != entries[i].item.id@);
    }
    lemma_root(entries, k);
    let places = lineage(entries, run, anchor);
    crate::workflow::blackboard::law_a_history_ends_at_the_live_item(entries, root(entries, k));
    assert forall|a: int| 0 <= a < places.len() - 1 implies (entries[#[trigger] places[a]].item.superseded_by
        matches Some(by) && by@ == entries[places[a + 1]].item.id@)
        && entries[places[a + 1]].item.revision == entries[places[a]].item.revision + 1 by {
        assert(crate::workflow::blackboard::corrected_next(entries, places, a));
    }
    assert forall|i: int|
        0 <= i < entries.len() && (#[trigger] entries[i]).workflow_run_id@
            == entries[places[0]].workflow_run_id@ implies !(
    entries[i].item.superseded_by matches Some(by) && by@ == entries[places[0]].item.id@) by {
        assert(!leads_to(entries, i, root(entries, k)));
    }
}

/// An item that a run does not have has no history.
pub proof fn law_unknown_items_have_no_history(
    entries: Seq<BoardEntry>,
    run: Seq<char>,
    anchor: Seq<char>,
)
    requires
        forall|i: int|
            0 <= i < entries.len() ==> !((#[trigger] entries[i]).workflow_run_id@ == run
                && entries[i].item.id@ == anchor),
    ensures
        lineage(entries, run, anchor).len() == 0,
{
    lemma_item(entries, run, anchor, 0);
}

} // verus!
