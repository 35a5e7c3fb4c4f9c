//! The workflow blackboard: typed, attributed artifacts shared within a workflow run.
//!
//! A claim-like artifact must carry evidence. A corrected artifact replaces the one it
//! supersedes without deleting it: the old item points at the new one, and the two form
//! a chain that never forks. Each run has its own board.
use crate::number::Double;
use crate::stamp::fresh_id;
use crate::text::{concat2, same_text};
use crate::workflow::json::JsonValue;
use vstd::prelude::*;

verus! {

/// An error from the blackboard.
#[derive(Debug, Clone, PartialEq, Eq)]
pub enum BlackboardError {
    /// The database refused, for the reason given.
    Database(String),
    /// A stored JSON text could not be read, for the reason given.
    Serde(String),
    /// A claim-like artifact was posted without evidence.
    EvidenceRequired(&'static str),
    /// The item does not exist in this workflow run.
    NotFound(String),
    /// The item to supersede has already been superseded.
    AlreadySuperseded(String),
}

/// What a [`BlackboardError`] says, with its strings seen as characters.
pub enum BoardFault {
    Database(Seq<char>),
    Serde(Seq<char>),
    EvidenceRequired(Seq<char>),
    NotFound(Seq<char>),
    AlreadySuperseded(Seq<char>),
}

impl View for BlackboardError {
    type V = BoardFault;

    open spec fn view(&self) -> BoardFault {
        match *self {
            BlackboardError::Database(s) => BoardFault::Database(s@),
            BlackboardError::Serde(s) => BoardFault::Serde(s@),
            BlackboardError::EvidenceRequired(s) => BoardFault::EvidenceRequired(s@),
            BlackboardError::NotFound(s) => BoardFault::NotFound(s@),
            BlackboardError::AlreadySuperseded(s) => BoardFault::AlreadySuperseded(s@),
        }
    }
}

/// The typed artifacts the blackboard holds.
#[derive(Debug, Clone, Copy, PartialEq, Eq, Structural)]
pub enum BlackboardKind {
    Finding,
    Hypothesis,
    Decision,
    CodeLocation,
    ProposedPatch,
    TestResult,
    DocumentDraft,
    OpenQuestion,
}

pub open spec fn kind_name(k: BlackboardKind) -> Seq<char> {
    match k {
        BlackboardKind::Finding => "finding"@,
        BlackboardKind::Hypothesis => "hypothesis"@,
        BlackboardKind::Decision => "decision"@,
        BlackboardKind::CodeLocation => "code_location"@,
        BlackboardKind::ProposedPatch => "proposed_patch"@,
        BlackboardKind::TestResult => "test_result"@,
        BlackboardKind::DocumentDraft => "document_draft"@,
        BlackboardKind::OpenQuestion => "open_question"@,
    }
}

/// The kind with that name.
pub open spec fn kind_named(s: Seq<char>) -> Option<BlackboardKind> {
    if s == "finding"@ {
        Some(BlackboardKind::Finding)
    } else if s == "hypothesis"@ {
        Some(BlackboardKind::Hypothesis)
    } else if s == "decision"@ {
        Some(BlackboardKind::Decision)
    } else if s == "code_location"@ {
        Some(BlackboardKind::CodeLocation)
    } else if s == "proposed_patch"@ {
        Some(BlackboardKind::ProposedPatch)
    } else if s == "test_result"@ {
        Some(BlackboardKind::TestResult)
    } else if s == "document_draft"@ {
        Some(BlackboardKind::DocumentDraft)
    } else if s == "open_question"@ {
        Some(BlackboardKind::OpenQuestion)
    } else {
        None
    }
}

/// Whether an artifact of that kind is a claim, which needs grounding.
pub open spec fn is_claim(k: BlackboardKind) -> bool {
    match k {
        BlackboardKind::Finding | BlackboardKind::Decision | BlackboardKind::TestResult
        | BlackboardKind::ProposedPatch | BlackboardKind::CodeLocation => true,
        _ => false,
    }
}

impl BlackboardKind {
    pub fn as_str(self) -> (r: &'static str)
        ensures
            r@ == kind_name(self),
    {
        match self {
            BlackboardKind::Finding => "finding",
            BlackboardKind::Hypothesis => "hypothesis",
            BlackboardKind::Decision => "decision",
            BlackboardKind::CodeLocation => "code_location",
            BlackboardKind::ProposedPatch => "proposed_patch",
            BlackboardKind::TestResult => "test_result",
            BlackboardKind::DocumentDraft => "document_draft",
            BlackboardKind::OpenQuestion => "open_question",
        }
    }

    /// Whether an artifact of this kind must carry evidence.
    pub fn requires_evidence(self) -> (r: bool)
        ensures
            r == is_claim(self),
    {
        matches!(
            self,
            BlackboardKind::Finding
                | BlackboardKind::Decision
                | BlackboardKind::TestResult
                | BlackboardKind::ProposedPatch
                | BlackboardKind::CodeLocation
        )
    }

    /// The kind with that name.
    pub fn parse(s: &str) -> (r: Result<Self, BlackboardError>)
        ensures
            match r {
                Ok(k) => kind_named(s@) == Some(k),
                Err(e) => kind_named(s@) is None && e@ == BoardFault::NotFound("kind "@ + s@),
            },
    {
        if same_text(s, "finding") {
            Ok(BlackboardKind::Finding)
        } else if same_text(s, "hypothesis") {
            Ok(BlackboardKind::Hypothesis)
        } else if same_text(s, "decision") {
            Ok(BlackboardKind::Decision)
        } else if same_text(s, "code_location") {
            Ok(BlackboardKind::CodeLocation)
        } else if same_text(s, "proposed_patch") {
            Ok(BlackboardKind::ProposedPatch)
        } else if same_text(s, "test_result") {
            Ok(BlackboardKind::TestResult)
        } else if same_text(s, "document_draft") {
            Ok(BlackboardKind::DocumentDraft)
        } else if same_text(s, "open_question") {
            Ok(BlackboardKind::OpenQuestion)
        } else {
            Err(BlackboardError::NotFound(concat2("kind ", s)))
        }
    }
}

/// Every kind's name is read back as that kind.
pub proof fn law_kind_names_round_trip(k: BlackboardKind)
    ensures
        kind_named(kind_name(k)) == Some(k),
{
    reveal_strlit("finding");
    reveal_strlit("hypothesis");
    reveal_strlit("decision");
    reveal_strlit("code_location");
    reveal_strlit("proposed_patch");
    reveal_strlit("test_result");
    reveal_strlit("document_draft");
    reveal_strlit("open_question");
    assert("finding"@.len() == 7 && "hypothesis"@.len() == 10 && "decision"@.len() == 8);
    assert("code_location"@.len() == 13 && "proposed_patch"@.len() == 14);
    assert("test_result"@.len() == 11 && "document_draft"@.len() == 14);
    assert("open_question"@.len() == 13);
    assert("code_location"@[0] != "open_question"@[0]);
    assert("proposed_patch"@[0] != "document_draft"@[0]);
}

/// An artifact to post.
#[derive(Debug, Clone, PartialEq)]
pub struct NewBlackboardItem {
    pub kind: BlackboardKind,
    /// The artifact body.
    pub payload: JsonValue,
    /// Who produced it.
    pub author: JsonValue,
    pub confidence: Option<Double>,
    /// Evidence references; required for claims.
    pub evidence: Vec<JsonValue>,
}

/// A stored artifact.
#[derive(Debug, Clone, PartialEq)]
pub struct BlackboardItem {
    pub id: String,
    pub kind: BlackboardKind,
    pub payload: JsonValue,
    pub author: JsonValue,
    pub confidence: Option<Double>,
    pub evidence: Vec<JsonValue>,
    pub revision: u32,
    /// The id of the item that superseded this one, if any.
    pub superseded_by: Option<String>,
}

/// An artifact on the board of one run.
#[derive(Debug, Clone, PartialEq)]
pub struct BoardEntry {
    pub workflow_run_id: String,
    pub item: BlackboardItem,
}

/// The artifacts of all runs, in the order in which they were posted.
#[derive(Debug, Clone, PartialEq)]
pub struct Board {
    pub entries: Vec<BoardEntry>,
}

/// The blackboard store. Stateless; the board is passed to each method.
#[derive(Debug, Clone, Copy, PartialEq, Eq, Structural)]
pub struct BlackboardStore;

impl Default for BlackboardStore {
    fn default() -> (r: Self)
        ensures
            r == BlackboardStore,
    {
        BlackboardStore
    }
}

/// Whether entry `k` is the item `id` of that run.
pub open spec fn is_item(entry: BoardEntry, run: Seq<char>, id: Seq<char>) -> bool {
    entry.workflow_run_id@ == run && entry.item.id@ == id
}

/// The place of the first such item from `k` on.
pub open spec fn item_index(entries: Seq<BoardEntry>, run: Seq<char>, id: Seq<char>, k: int) -> Option<
    int,
>
    decreases entries.len() - k,
{
    if k >= entries.len() {
        None
    } else if is_item(entries[k], run, id) {
        Some(k)
    } else {
        item_index(entries, run, id, k + 1)
    }
}

/// Whether an artifact lacks the evidence its kind asks for.
pub open spec fn ungrounded(new: NewBlackboardItem) -> bool {
    is_claim(new.kind) && new.evidence@.len() == 0
}

/// Whether `entry` is `new`, posted to that run under that id and revision.
pub open spec fn posted_as(
    entry: BoardEntry,
    run: Seq<char>,
    id: Seq<char>,
    new: NewBlackboardItem,
    revision: u32,
) -> bool {
    &&& entry.workflow_run_id@ == run
    &&& entry.item.id@ == id
    &&& entry.item.kind == new.kind
    &&& entry.item.payload == new.payload
    &&& entry.item.author == new.author
    &&& entry.item.confidence == new.confidence
    &&& entry.item.evidence == new.evidence
    &&& entry.item.revision == revision
    &&& entry.item.superseded_by is None
}

/// `entry` pointing at the item that superseded it.
pub open spec fn stamped(entry: BoardEntry, by: String) -> BoardEntry {
    BoardEntry { item: BlackboardItem { superseded_by: Some(by), ..entry.item }, ..entry }
}

/// Whether no entry has that id.
pub open spec fn unused(entries: Seq<BoardEntry>, id: Seq<char>) -> bool {
    forall|i: int| 0 <= i < entries.len() ==> (#[trigger] entries[i]).item.id@ != id
}

/// Whether `item` shows what `entry` holds.
pub open spec fn shows(item: BlackboardItem, entry: BoardEntry) -> bool {
    &&& item.id@ == entry.item.id@
    &&& item.kind == entry.item.kind
    &&& item.payload@ == entry.item.payload@
    &&& item.author@ == entry.item.author@
    &&& item.confidence == entry.item.confidence
    &&& crate::workflow::json::item_models(item.evidence@)
        == crate::workflow::json::item_models(entry.item.evidence@)
    &&& item.revision == entry.item.revision
    &&& item.superseded_by == entry.item.superseded_by
}

/// Why an item cannot be posted under `id`.
pub open spec fn post_fault(
    entries: Seq<BoardEntry>,
    id: Seq<char>,
    new: NewBlackboardItem,
) -> Option<BoardFault> {
    if ungrounded(new) {
        Some(BoardFault::EvidenceRequired(kind_name(new.kind)))
    } else if !unused(entries, id) {
        Some(BoardFault::Database("UNIQUE constraint failed: blackboard_items.id"@))
    } else {
        None
    }
}

/// What posting an artifact leaves behind: the artifact at the end of the board, or a
/// refusal and the board as it was.
pub open spec fn posted(
    before: Seq<BoardEntry>,
    after: Seq<BoardEntry>,
    run: Seq<char>,
    id: Seq<char>,
    new: NewBlackboardItem,
    r: Result<BlackboardItem, BlackboardError>,
) -> bool {
    match post_fault(before, id, new) {
        Some(fault) => after == before && (r matches Err(e) && e@ == fault),
        None => {
            &&& r matches Ok(item) && shows(item, after.last())
            &&& after.len() == before.len() + 1
            &&& after.drop_last() == before
            &&& posted_as(after.last(), run, id, new, 1)
        },
    }
}

/// What superseding an item leaves behind: the replacement at the end of the board with
/// the old item pointing at it, or a refusal and the board as it was.
pub open spec fn superseded(
    before: Seq<BoardEntry>,
    after: Seq<BoardEntry>,
    run: Seq<char>,
    old_id: Seq<char>,
    id: Seq<char>,
    new: NewBlackboardItem,
    r: Result<BlackboardItem, BlackboardError>,
) -> bool {
    match supersede_fault(before, run, old_id, id, new) {
        Some(fault) => after == before && (r matches Err(e) && e@ == fault),
        None => {
            let k = item_index(before, run, old_id, 0)->0;
            &&& r matches Ok(item) && shows(item, after.last())
            &&& after.len() == before.len() + 1
            &&& exists|by: String|
                by@ == id && after.drop_last() == before.update(
                    k,
                    #[trigger] stamped(before[k], by),
                )
            &&& posted_as(
                after.last(),
                run,
                id,
                new,
                (before[k].item.revision + 1) as u32,
            )
        },
    }
}

/// Why an item cannot be superseded by one under `id`.
pub open spec fn supersede_fault(
    entries: Seq<BoardEntry>,
    run: Seq<char>,
    old_id: Seq<char>,
    id: Seq<char>,
    new: NewBlackboardItem,
) -> Option<BoardFault> {
    if ungrounded(new) {
        Some(BoardFault::EvidenceRequired(kind_name(new.kind)))
    } else {
        match item_index(entries, run, old_id, 0) {
            None => Some(BoardFault::NotFound(old_id)),
            Some(k) => if entries[k].item.superseded_by is Some {
                Some(BoardFault::AlreadySuperseded(old_id))
            } else if !unused(entries, id) {
                Some(BoardFault::Database("UNIQUE constraint failed: blackboard_items.id"@))
            } else {
                None
            },
        }
    }
}

/// Whether a query for that run, kind and status selects an entry.
pub open spec fn selected(
    entry: BoardEntry,
    run: Seq<char>,
    kind: Option<BlackboardKind>,
    include_superseded: bool,
) -> bool {
    &&& entry.workflow_run_id@ == run
    &&& include_superseded || entry.item.superseded_by is None
    &&& kind is None || kind == Some(entry.item.kind)
}

/// The places of the selected ones among the first `n` entries, the newest first.
pub open spec fn query_places(
    entries: Seq<BoardEntry>,
    run: Seq<char>,
    kind: Option<BlackboardKind>,
    include_superseded: bool,
    n: int,
) -> Seq<int>
    decreases n,
{
    if n <= 0 {
        Seq::empty()
    } else {
        let rest = query_places(entries, run, kind, include_superseded, n - 1);
        if selected(entries[n - 1], run, kind, include_superseded) {
            seq![n - 1] + rest
        } else {
            rest
        }
    }
}

/// Whether entry `i` was superseded by entry `j`.
pub open spec fn leads_to(entries: Seq<BoardEntry>, i: int, j: int) -> bool {
    &&& entries[i].workflow_run_id@ == entries[j].workflow_run_id@
    &&& entries[i].item.superseded_by is Some
    &&& entries[i].item.superseded_by->0@ == entries[j].item.id@
}

/// The last entry before `n` that entry `j` superseded.
pub open spec fn predecessor(entries: Seq<BoardEntry>, j: int, n: int) -> Option<int>
    decreases n,
{
    if n <= 0 {
        None
    } else if leads_to(entries, n - 1, j) {
        Some(n - 1)
    } else {
        predecessor(entries, j, n - 1)
    }
}

/// The first entry from `k` on that superseded entry `i`.
pub open spec fn successor(entries: Seq<BoardEntry>, i: int, k: int) -> Option<int>
    decreases entries.len() - k,
{
    if k >= entries.len() {
        None
    } else if leads_to(entries, i, k) {
        Some(k)
    } else {
        successor(entries, i, k + 1)
    }
}

/// The oldest entry of the chain that entry `j` is in.
pub open spec fn root(entries: Seq<BoardEntry>, j: int) -> int
    decreases j,
{
    match predecessor(entries, j, j) {
        Some(i) => if 0 <= i < j {
            root(entries, i)
        } else {
            j
        },
        None => j,
    }
}

/// The chain from entry `i` on, the oldest first.
pub open spec fn chain_from(entries: Seq<BoardEntry>, i: int) -> Seq<int>
    decreases entries.len() - i,
{
    match successor(entries, i, i + 1) {
        Some(j) => if i < j < entries.len() {
            seq![i] + chain_from(entries, j)
        } else {
            seq![i]
        },
        None => seq![i],
    }
}

/// The whole chain that an item is in, the oldest first; nothing for an unknown item.
pub open spec fn lineage(entries: Seq<BoardEntry>, run: Seq<char>, anchor: Seq<char>) -> Seq<int> {
    match item_index(entries, run, anchor, 0) {
        Some(k) => chain_from(entries, root(entries, k)),
        None => Seq::empty(),
    }
}

fn find_item(entries: &Vec<BoardEntry>, run: &str, id: &str) -> (r: Option<usize>)
    ensures
        match r {
            Some(k) => k < entries@.len() && item_index(entries@, run@, id@, 0) == Some(k as int),
            None => item_index(entries@, run@, id@, 0) is None,
        },
{
    let mut k: usize = 0;
    while k < entries.len()
        invariant
            k <= entries@.len(),
            item_index(entries@, run@, id@, 0) == item_index(entries@, run@, id@, k as int),
        decreases entries@.len() - k,
    {
        if same_text(&entries[k].workflow_run_id, run) && same_text(&entries[k].item.id, id) {
            return Some(k);
        }
        k = k + 1;
    }
    None
}

fn links(entries: &Vec<BoardEntry>, i: usize, j: usize) -> (r: bool)
    requires
        i < entries@.len(),
        j < entries@.len(),
    ensures
        r == leads_to(entries@, i as int, j as int),
{
    if entries[i].workflow_run_id != entries[j].workflow_run_id {
        return false;
    }
    match &entries[i].item.superseded_by {
        Some(id) => *id == entries[j].item.id,
        None => false,
    }
}

fn entry_of(run: &str, id: String, new: NewBlackboardItem, revision: u32) -> (r: BoardEntry)
    ensures
        posted_as(r, run@, id@, new, revision),
{
    BoardEntry {
        workflow_run_id: run.to_owned(),
        item: BlackboardItem {
            id,
            kind: new.kind,
            payload: new.payload,
            author: new.author,
            confidence: new.confidence,
            evidence: new.evidence,
            revision,
            superseded_by: None,
        },
    }
}

fn id_taken() -> (r: BlackboardError)
    ensures
        r@ == BoardFault::Database("UNIQUE constraint failed: blackboard_items.id"@),
{
    BlackboardError::Database("UNIQUE constraint failed: blackboard_items.id".to_owned())
}

fn id_used(entries: &Vec<BoardEntry>, id: &str) -> (r: bool)
    ensures
        r == !unused(entries@, id@),
{
    let mut k: usize = 0;
    while k < entries.len()
        invariant
            k <= entries@.len(),
            forall|i: int| 0 <= i < k ==> (#[trigger] entries@[i]).item.id@ != id@,
        decreases entries@.len() - k,
    {
        if same_text(&entries[k].item.id, id) {
            proof {
                assert(entries@[k as int].item.id@ == id@);
            }
            return true;
        }
        k = k + 1;
    }
    false
}

fn copy_item(item: &BlackboardItem) -> (r: BlackboardItem)
    ensures
        forall|entry: BoardEntry| entry.item == *item ==> #[trigger] shows(r, entry),
{
    BlackboardItem {
        id: item.id.clone(),
        kind: item.kind,
        payload: item.payload.copy(),
        author: item.author.copy(),
        confidence: item.confidence,
        evidence: crate::workflow::json::copy_all(&item.evidence),
        revision: item.revision,
        superseded_by: match &item.superseded_by {
            Some(by) => Some(by.clone()),
            None => None,
        },
    }
}

impl BlackboardStore {
    pub fn new() -> (r: Self)
        ensures
            r == BlackboardStore,
    {
        BlackboardStore
    }

    /// Posts an artifact to a run's board under a new id, as its first revision. A claim
    /// without evidence is refused. Returns the stored item.
    pub fn post(&self, board: &mut Board, workflow_run_id: &str, new: NewBlackboardItem) -> (r:
        Result<BlackboardItem, BlackboardError>)
        ensures
            exists|id: Seq<char>|
                crate::stamp::is_identifier(id) && #[trigger] posted(
                    old(board).entries@,
                    final(board).entries@,
                    workflow_run_id@,
                    id,
                    new,
                    r,
                ),
    {
        let id: String = fresh_id();
        self.post_as(board, workflow_run_id, id, new)
    }

    /// Posts an artifact to a run's board under the given id. A claim without evidence is
    /// refused, and so is an id that is in use.
    pub fn post_as(
        &self,
        board: &mut Board,
        workflow_run_id: &str,
        id: String,
        new: NewBlackboardItem,
    ) -> (r: Result<BlackboardItem, BlackboardError>)
        ensures
            posted(old(board).entries@, final(board).entries@, workflow_run_id@, id@, new, r),
    {
        if new.kind.requires_evidence() && new.evidence.len() == 0 {
            return Err(BlackboardError::EvidenceRequired(new.kind.as_str()));
        }
        if id_used(&board.entries, &id) {
            return Err(id_taken());
        }
        let entry: BoardEntry = entry_of(workflow_run_id, id, new, 1);
        let item: BlackboardItem = copy_item(&entry.item);
        board.entries.push(entry);
        proof {
            assert(board.entries@.drop_last() =~= old(board).entries@);
        }
        Ok(item)
    }

    /// Supersedes an item: the replacement is posted at the next revision under a new id,
    /// and the old item points at it. Returns the stored replacement.
    pub fn supersede(
        &self,
        board: &mut Board,
        workflow_run_id: &str,
        old_id: &str,
        new: NewBlackboardItem,
    ) -> (r: Result<BlackboardItem, BlackboardError>)
        requires
            item_index(old(board).entries@, workflow_run_id@, old_id@, 0) matches Some(k)
                ==> old(board).entries@[k].item.revision < u32::MAX,
        ensures
            exists|id: Seq<char>|
                crate::stamp::is_identifier(id) && #[trigger] superseded(
                    old(board).entries@,
                    final(board).entries@,
                    workflow_run_id@,
                    old_id@,
                    id,
                    new,
                    r,
                ),
    {
        let id: String = fresh_id();
        self.supersede_as(board, workflow_run_id, old_id, id, new)
    }

    /// Supersedes an item by one under the given id. An id that is in use is refused.
    pub fn supersede_as(
        &self,
        board: &mut Board,
        workflow_run_id: &str,
        old_id: &str,
        id: String,
        new: NewBlackboardItem,
    ) -> (r: Result<BlackboardItem, BlackboardError>)
        requires
            item_index(old(board).entries@, workflow_run_id@, old_id@, 0) matches Some(k)
                ==> old(board).entries@[k].item.revision < u32::MAX,
        ensures
            superseded(
                old(board).entries@,
                final(board).entries@,
                workflow_run_id@,
                old_id@,
                id@,
                new,
                r,
            ),
    {
        if new.kind.requires_evidence() && new.evidence.len() == 0 {
            return Err(BlackboardError::EvidenceRequired(new.kind.as_str()));
        }
        let k: usize = match find_item(&board.entries, workflow_run_id, old_id) {
            None => {
                return Err(BlackboardError::NotFound(old_id.to_owned()));
            },
            Some(k) => k,
        };
        if board.entries[k].item.superseded_by.is_some() {
            return Err(BlackboardError::AlreadySuperseded(old_id.to_owned()));
        }
        if id_used(&board.entries, &id) {
            return Err(id_taken());
        }
        let revision: u32 = board.entries[k].item.revision + 1;
        let by: String = id.clone();
        board.entries[k].item.superseded_by = Some(by);
        let entry: BoardEntry = entry_of(workflow_run_id, id, new, revision);
        let item: BlackboardItem = copy_item(&entry.item);
        board.entries.push(entry);
        proof {
            assert(board.entries@.drop_last() =~= old(board).entries@.update(
                k as int,
                stamped(old(board).entries@[k as int], by),
            ));
        }
        Ok(item)
    }

    /// The artifacts of a run, the newest first, optionally of one kind only. Superseded
    /// ones are left out unless they are asked for.
    pub fn query<'a>(
        &self,
        board: &'a Board,
        workflow_run_id: &str,
        kind: Option<BlackboardKind>,
        include_superseded: bool,
    ) -> (r: Vec<&'a BlackboardItem>)
        ensures
            ({
                let places = query_places(
                    board.entries@,
                    workflow_run_id@,
                    kind,
                    include_superseded,
                    board.entries@.len() as int,
                );
                &&& r@.len() == places.len()
                &&& forall|i: int|
                    0 <= i < places.len() ==> *(#[trigger] r@[i]) == board.entries@[places[i]].item
            }),
    {
        let mut out: Vec<&'a BlackboardItem> = Vec::new();
        let mut n: usize = board.entries.len();
        let ghost all = query_places(
            board.entries@,
            workflow_run_id@,
            kind,
            include_superseded,
            board.entries@.len() as int,
        );
        let ghost mut done: Seq<int> = Seq::empty();
        proof {
            assert(done + all =~= all);
        }
        while n > 0
            invariant
                n <= board.entries@.len(),
                all == done + query_places(
                    board.entries@,
                    workflow_run_id@,
                    kind,
                    include_superseded,
                    n as int,
                ),
                out@.len() == done.len(),
                forall|i: int|
                    0 <= i < done.len() ==> *(#[trigger] out@[i]) == board.entries@[done[i]].item,
            decreases n,
        {
            let entry: &'a BoardEntry = &board.entries[n - 1];
            let right_kind: bool = match kind {
                None => true,
                Some(k) => k == entry.item.kind,
            };
            let rest = Ghost(
                query_places(
                    board.entries@,
                    workflow_run_id@,
                    kind,
                    include_superseded,
                    n - 1,
                ),
            );
            if same_text(&entry.workflow_run_id, workflow_run_id) && (include_superseded
                || entry.item.superseded_by.is_none()) && right_kind {
                out.push(&entry.item);
                proof {
                    assert(done + (seq![n - 1] + rest@) =~= done.push(n - 1) + rest@);
                    done = done.push(n - 1);
                }
            }
            n = n - 1;
        }
        proof {
            assert(all =~= done);
        }
        out
    }

    /// The item of a run with that id.
    pub fn get<'a>(&self, board: &'a Board, workflow_run_id: &str, id: &str) -> (r: Option<
        &'a BlackboardItem,
    >)
        ensures
            match item_index(board.entries@, workflow_run_id@, id@, 0) {
                Some(k) => r == Some(&board.entries@[k].item),
                None => r is None,
            },
    {
        match find_item(&board.entries, workflow_run_id, id) {
            Some(k) => Some(&board.entries[k].item),
            None => None,
        }
    }

    /// The whole chain of corrections that an item is in, the oldest first. An unknown
    /// item has none.
    pub fn history<'a>(&self, board: &'a Board, workflow_run_id: &str, anchor: &str) -> (r: Vec<
        &'a BlackboardItem,
    >)
        ensures
            ({
                let places = lineage(board.entries@, workflow_run_id@, anchor@);
                &&& r@.len() == places.len()
                &&& forall|i: int|
                    0 <= i < places.len() ==> *(#[trigger] r@[i]) == board.entries@[places[i]].item
            }),
    {
        let mut out: Vec<&'a BlackboardItem> = Vec::new();
        let entries: &'a Vec<BoardEntry> = &board.entries;
        let start: usize = match find_item(entries, workflow_run_id, anchor) {
            None => {
                return out;
            },
            Some(k) => k,
        };
        let mut at: usize = start;
        let mut n: usize = at;
        while n > 0
            invariant
                n <= at < entries@.len(),
                start < entries@.len(),
                root(entries@, start as int) == root(entries@, at as int),
                predecessor(entries@, at as int, at as int) == predecessor(
                    entries@,
                    at as int,
                    n as int,
                ),
            decreases n,
        {
            if links(entries, n - 1, at) {
                at = n - 1;
                n = at;
            } else {
                n = n - 1;
            }
        }
        let ghost all = chain_from(entries@, at as int);
        let ghost mut done: Seq<int> = Seq::empty();
        proof {
            assert(root(entries@, at as int) == at as int);
            assert(done + all =~= all);
        }
        let mut more: bool = true;
        let total: usize = entries.len();
        while more
            invariant
                at < entries@.len(),
                total == entries@.len(),
                *entries == board.entries,
                more ==> all == done + chain_from(entries@, at as int),
                !more ==> all == done,
                out@.len() == done.len(),
                forall|i: int|
                    0 <= i < done.len() ==> *(#[trigger] out@[i]) == entries@[done[i]].item,
            decreases entries@.len() - at + if more {
                1int
            } else {
                0int
            },
        {
            out.push(&entries[at].item);
            let ghost before = done;
            proof {
                done = done.push(at as int);
            }
            let mut k: usize = at + 1;
            while k < entries.len() && !links(entries, at, k)
                invariant
                    at < k <= entries@.len(),
                    successor(entries@, at as int, at + 1) == successor(
                        entries@,
                        at as int,
                        k as int,
                    ),
                decreases entries@.len() - k,
            {
                k = k + 1;
            }
            if k < entries.len() {
                proof {
                    assert(before + (seq![at as int] + chain_from(entries@, k as int)) =~= done
                        + chain_from(entries@, k as int));
                }
                at = k;
            } else {
                proof {
                    assert(before + seq![at as int] =~= done);
                }
                more = false;
            }
        }
        out
    }
}

// ---------------------------------------------------------------------------
// Laws
// ---------------------------------------------------------------------------

/// Whether entry `i` was replaced by a later one at the next revision.
pub open spec fn replaced_later(entries: Seq<BoardEntry>, i: int) -> bool {
    exists|j: int|
        i < j < entries.len() && #[trigger] leads_to(entries, i, j) && entries[j].item.revision
            == entries[i].item.revision + 1
}

/// Whether ids are unique, every superseded item's replacement was posted later at the
/// next revision, and no item replaces two others.
pub open spec fn sound(entries: Seq<BoardEntry>) -> bool {
    &&& forall|i: int, j: int|
        0 <= i < j < entries.len() ==> (#[trigger] entries[i]).item.id@ != (
        #[trigger] entries[j]).item.id@
    &&& forall|i: int|
        0 <= i < entries.len() && entries[i].item.superseded_by is Some
            ==> #[trigger] replaced_later(entries, i)
    &&& forall|i: int, k: int, j: int|
        0 <= i < entries.len() && 0 <= k < entries.len() && 0 <= j < entries.len()
            && #[trigger] leads_to(entries, i, j) && #[trigger] leads_to(entries, k, j) ==> i == k
}

proof fn lemma_item_index(entries: Seq<BoardEntry>, run: Seq<char>, id: Seq<char>, k: int)
    requires
        0 <= k,
    ensures
        item_index(entries, run, id, k) matches Some(i) ==> k <= i < entries.len() && is_item(
            entries[i],
            run,
            id,
        ),
    decreases entries.len() - k,
{
    if k < entries.len() && !is_item(entries[k], run, id) {
        lemma_item_index(entries, run, id, k + 1);
    }
}

/// Posting keeps the board sound, whether it succeeds or not.
pub proof fn law_post_keeps_the_board_sound(
    before: Seq<BoardEntry>,
    after: Seq<BoardEntry>,
    run: Seq<char>,
    id: Seq<char>,
    new: NewBlackboardItem,
    r: Result<BlackboardItem, BlackboardError>,
)
    requires
        sound(before),
        posted(before, after, run, id, new, r),
    ensures
        sound(after),
{
    if post_fault(before, id, new) is None {
        lemma_posting_keeps_the_board_sound(before, after, run, id, new, 1);
    }
}

/// Superseding keeps the board sound, whether it succeeds or not. Where it succeeds the
/// old item points at its replacement: the chain grows by one link and never forks.
pub proof fn law_supersede_keeps_the_board_sound(
    before: Seq<BoardEntry>,
    after: Seq<BoardEntry>,
    run: Seq<char>,
    old_id: Seq<char>,
    id: Seq<char>,
    new: NewBlackboardItem,
    r: Result<BlackboardItem, BlackboardError>,
)
    requires
        sound(before),
        item_index(before, run, old_id, 0) matches Some(k) ==> before[k].item.revision < u32::MAX,
        superseded(before, after, run, old_id, id, new, r),
    ensures
        sound(after),
        r is Ok ==> leads_to(after, item_index(before, run, old_id, 0)->0, before.len() as int),
{
    if supersede_fault(before, run, old_id, id, new) is None {
        lemma_item_index(before, run, old_id, 0);
        let k = item_index(before, run, old_id, 0)->0;
        let by = choose|by: String|
            by@ == id && after.drop_last() == before.update(k, #[trigger] stamped(before[k], by));
        lemma_superseding_keeps_the_board_sound(before, after, run, by, k, new);
    }
}

proof fn lemma_posting_keeps_the_board_sound(
    before: Seq<BoardEntry>,
    after: Seq<BoardEntry>,
    run: Seq<char>,
    id: Seq<char>,
    new: NewBlackboardItem,
    revision: u32,
)
    requires
        sound(before),
        unused(before, id),
        after.len() == before.len() + 1,
        after.drop_last() == before,
        posted_as(after.last(), run, id, new, revision),
    ensures
        sound(after),
{
    let n = before.len() as int;
    assert forall|i: int| 0 <= i < n implies #[trigger] after[i] == before[i] by {
        assert(after.drop_last()[i] == after[i]);
    }
    assert forall|i: int, j: int| 0 <= i < n && 0 <= j < n implies #[trigger] leads_to(after, i, j)
        == leads_to(before, i, j) by {}
    assert forall|i: int| 0 <= i < n implies !#[trigger] leads_to(after, i, n) by {
        if leads_to(after, i, n) {
            assert(replaced_later(before, i));
            let j = choose|j: int|
                i < j < before.len() && #[trigger] leads_to(before, i, j)
                    && before[j].item.revision == before[i].item.revision + 1;
            assert(before[j].item.id@ == id);
        }
    }
    assert forall|i: int|
        0 <= i < after.len() && after[i].item.superseded_by is Some implies #[trigger] replaced_later(
        after,
        i,
    ) by {
        assert(replaced_later(before, i));
        let j = choose|j: int|
            i < j < before.len() && #[trigger] leads_to(before, i, j) && before[j].item.revision
                == before[i].item.revision + 1;
        assert(leads_to(after, i, j));
    }
    assert forall|i: int, k: int, j: int|
        0 <= i < after.len() && 0 <= k < after.len() && 0 <= j < after.len()
            && #[trigger] leads_to(after, i, j) && #[trigger] leads_to(after, k, j) implies i == k by {
        if j < n {
            assert(i < n && k < n);
            assert(leads_to(before, i, j) && leads_to(before, k, j));
        }
    }
}

proof fn lemma_superseding_keeps_the_board_sound(
    before: Seq<BoardEntry>,
    after: Seq<BoardEntry>,
    run: Seq<char>,
    id: String,
    k: int,
    new: NewBlackboardItem,
)
    requires
        sound(before),
        unused(before, id@),
        0 <= k < before.len(),
        before[k].workflow_run_id@ == run,
        before[k].item.superseded_by is None,
        before[k].item.revision < u32::MAX,
        after.len() == before.len() + 1,
        after.drop_last() == before.update(k, stamped(before[k], id)),
        posted_as(after.last(), run, id@, new, (before[k].item.revision + 1) as u32),
    ensures
        sound(after),
        leads_to(after, k, before.len() as int),
{
    let n = before.len() as int;
    assert forall|i: int| 0 <= i < n implies #[trigger] after[i] == if i == k {
        stamped(before[k], id)
    } else {
        before[i]
    } by {
        assert(after.drop_last()[i] == after[i]);
    }
    assert forall|i: int, j: int| 0 <= i < n && 0 <= j < n && i != k implies #[trigger] leads_to(
        after,
        i,
        j,
    ) == leads_to(before, i, j) by {}
    assert forall|j: int| 0 <= j < n implies !#[trigger] leads_to(after, k, j) by {
        assert(before[j].item.id@ != id@);
    }
    assert forall|i: int| 0 <= i < n && i != k implies !#[trigger] leads_to(after, i, n) by {
        if leads_to(after, i, n) {
            assert(replaced_later(before, i));
            let j = choose|j: int|
                i < j < before.len() && #[trigger] leads_to(before, i, j)
                    && before[j].item.revision == before[i].item.revision + 1;
            assert(before[j].item.id@ == id@);
        }
    }
    assert(leads_to(after, k, n));
    assert forall|i: int|
        0 <= i < after.len() && after[i].item.superseded_by is Some implies #[trigger] replaced_later(
        after,
        i,
    ) by {
        if i == k {
            assert(leads_to(after, k, n));
        } else {
            assert(replaced_later(before, i));
            let j = choose|j: int|
                i < j < before.len() && #[trigger] leads_to(before, i, j)
                    && before[j].item.revision == before[i].item.revision + 1;
            assert(leads_to(after, i, j));
        }
    }
    assert forall|i: int, m: int, j: int|
        0 <= i < after.len() && 0 <= m < after.len() && 0 <= j < after.len()
            && #[trigger] leads_to(after, i, j) && #[trigger] leads_to(after, m, j) implies i == m by {
        if j < n {
            assert(i != k && m != k);
            assert(i < n && m < n);
            assert(leads_to(before, i, j) && leads_to(before, m, j));
        }
    }
}

proof fn lemma_predecessor(entries: Seq<BoardEntry>, i: int, j: int, n: int)
    requires
        sound(entries),
        0 <= i < n <= j < entries.len(),
        leads_to(entries, i, j),
    ensures
        predecessor(entries, j, n) == Some(i),
    decreases n,
{
    if leads_to(entries, n - 1, j) {
    } else {
        lemma_predecessor(entries, i, j, n - 1);
    }
}

/// The chain does not depend on which of its links is asked for: a superseded item and
/// its replacement have the same history.
pub proof fn law_history_is_the_same_from_every_link(entries: Seq<BoardEntry>, i: int, j: int)
    requires
        sound(entries),
        0 <= i < entries.len(),
        0 <= j < entries.len(),
        leads_to(entries, i, j),
    ensures
        i < j,
        root(entries, j) == root(entries, i),
        chain_from(entries, root(entries, j)) == chain_from(entries, root(entries, i)),
{
    assert(replaced_later(entries, i));
    let m = choose|m: int|
        i < m < entries.len() && #[trigger] leads_to(entries, i, m) && entries[m].item.revision
            == entries[i].item.revision + 1;
    assert(entries[m].item.id@ == entries[j].item.id@);
    assert(m == j);
    lemma_predecessor(entries, i, j, j);
}

proof fn lemma_successor(entries: Seq<BoardEntry>, i: int, j: int, k: int)
    requires
        sound(entries),
        0 <= k <= j < entries.len(),
        leads_to(entries, i, j),
    ensures
        successor(entries, i, k) == Some(j),
    decreases j - k,
{
    if leads_to(entries, i, k) {
        assert(entries[k].item.id@ == entries[j].item.id@);
    } else {
        lemma_successor(entries, i, j, k + 1);
    }
}

proof fn lemma_no_successor(entries: Seq<BoardEntry>, i: int, k: int)
    requires
        entries[i].item.superseded_by is None,
    ensures
        successor(entries, i, k) is None,
    decreases entries.len() - k,
{
    if k < entries.len() {
        lemma_no_successor(entries, i, k + 1);
    }
}

/// Whether the place after `k` in `places` is the correction of the one at `k`, one
/// revision later.
pub open spec fn corrected_next(entries: Seq<BoardEntry>, places: Seq<int>, k: int) -> bool {
    leads_to(entries, places[k], places[k + 1]) && entries[places[k + 1]].item.revision
        == entries[places[k]].item.revision + 1
}

/// From any entry on, a history follows the corrections one revision at a time, and ends
/// at the one that nothing has superseded.
pub proof fn law_a_history_ends_at_the_live_item(entries: Seq<BoardEntry>, i: int)
    requires
        sound(entries),
        0 <= i < entries.len(),
    ensures
        chain_from(entries, i).len() > 0,
        chain_from(entries, i)[0] == i,
        forall|k: int|
            0 <= k < chain_from(entries, i).len() - 1 ==> #[trigger] corrected_next(
                entries,
                chain_from(entries, i),
                k,
            ),
        entries[chain_from(entries, i).last()].item.superseded_by is None,
    decreases entries.len() - i,
{
    let all = chain_from(entries, i);
    if entries[i].item.superseded_by is Some {
        assert(replaced_later(entries, i));
        let j = choose|j: int|
            i < j < entries.len() && #[trigger] leads_to(entries, i, j) && entries[j].item.revision
                == entries[i].item.revision + 1;
        lemma_successor(entries, i, j, i + 1);
        law_a_history_ends_at_the_live_item(entries, j);
        let rest = chain_from(entries, j);
        assert(all == seq![i] + rest);
        assert forall|k: int| 0 <= k < all.len() - 1 implies #[trigger] corrected_next(
            entries,
            all,
            k,
        ) by {
            assert(all[k + 1] == rest[k]);
            if k > 0 {
                assert(all[k] == rest[k - 1]);
                assert(corrected_next(entries, rest, k - 1));
            }
        }
        assert(all.last() == rest.last());
    } else {
        lemma_no_successor(entries, i, i + 1);
        assert(all == seq![i]);
    }
}

/// A query of one run's board never shows another run's items.
pub proof fn law_boards_are_isolated(
    entries: Seq<BoardEntry>,
    run: Seq<char>,
    kind: Option<BlackboardKind>,
    include_superseded: bool,
    n: int,
)
    requires
        0 <= n <= entries.len(),
    ensures
        forall|p: int|
            #[trigger] query_places(entries, run, kind, include_superseded, n).contains(p)
                <==> 0 <= p < n && selected(entries[p], run, kind, include_superseded),
    decreases n,
{
    if n > 0 {
        law_boards_are_isolated(entries, run, kind, include_superseded, n - 1);
        let rest = query_places(entries, run, kind, include_superseded, n - 1);
        let now = query_places(entries, run, kind, include_superseded, n);
        assert forall|p: int| #[trigger] now.contains(p) <==> 0 <= p < n && selected(
            entries[p],
            run,
            kind,
            include_superseded,
        ) by {
            if selected(entries[n - 1], run, kind, include_superseded) {
                assert(now[0] == n - 1);
                if now.contains(p) {
                    let i = now.index_of(p);
                    if i > 0 {
                        assert(rest[i - 1] == p);
                        assert(rest.contains(p));
                    }
                }
                if rest.contains(p) {
                    let i = rest.index_of(p);
                    assert(now[i + 1] == p);
                }
            }
            if p < n - 1 && selected(entries[p], run, kind, include_superseded) && 0 <= p {
                assert(rest.contains(p));
            }
        }
    }
}

} // verus!
