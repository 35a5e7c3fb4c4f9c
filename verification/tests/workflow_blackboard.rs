//! The artifacts that the agents of a run share.
use codypendent::number::Double;
use codypendent::workflow::blackboard::{
    BlackboardError, BlackboardKind, BlackboardStore, Board, NewBlackboardItem,
};
use codypendent::workflow::json::{JsonNumber, JsonValue};

fn empty_board() -> Board {
    Board {
        entries: Vec::new(),
    }
}

fn pair(key: &str, value: &str) -> JsonValue {
    JsonValue::Object(vec![(
        key.to_owned(),
        JsonValue::String(value.to_owned()),
    )])
}

fn artifact(name: &str) -> Vec<JsonValue> {
    vec![pair("artifact", name)]
}

fn e_is_one() -> Vec<JsonValue> {
    vec![JsonValue::Object(vec![(
        "e".to_owned(),
        JsonValue::Number(JsonNumber::Unsigned(1)),
    )])]
}

fn finding(text: &str, evidence: Vec<JsonValue>) -> NewBlackboardItem {
    NewBlackboardItem {
        kind: BlackboardKind::Finding,
        payload: pair("text", text),
        author: pair("agent", "investigator"),
        confidence: Some(Double {
            bits: 0.8f64.to_bits(),
        }),
        evidence,
    }
}

#[test]
fn claim_kinds_require_evidence_but_questions_do_not() {
    let mut board = empty_board();
    let store = BlackboardStore::new();
    let err = store
        .post(
            &mut board,
            "run",
            finding("the parser panics on empty input", vec![]),
        )
        .unwrap_err();
    assert!(matches!(err, BlackboardError::EvidenceRequired("finding")));

    let posted = store
        .post(
            &mut board,
            "run",
            finding("panics on empty input", artifact("log-1")),
        )
        .unwrap();
    assert_eq!(posted.revision, 1);

    store
        .post(
            &mut board,
            "run",
            NewBlackboardItem {
                kind: BlackboardKind::OpenQuestion,
                payload: pair("text", "why SQLite over RocksDB?"),
                author: pair("agent", "investigator"),
                confidence: None,
                evidence: vec![],
            },
        )
        .unwrap();
    assert_eq!(store.query(&board, "run", None, false).len(), 2);
}

#[test]
fn supersede_replaces_and_keeps_the_chain() {
    let mut board = empty_board();
    let store = BlackboardStore::new();
    let v1 = store
        .post(&mut board, "run", finding("v1", artifact("a")))
        .unwrap();
    let v2 = store
        .supersede(
            &mut board,
            "run",
            &v1.id,
            finding("v2 corrected", artifact("b")),
        )
        .unwrap();
    assert_eq!(v2.revision, 2);
    assert_eq!(v2.superseded_by, None);

    let kind = Some(BlackboardKind::Finding);
    let live = store.query(&board, "run", kind, false);
    assert_eq!(live.len(), 1);
    assert_eq!(live[0].id, v2.id);
    assert_eq!(live[0].payload, pair("text", "v2 corrected"));

    let full = store.query(&board, "run", kind, true);
    assert_eq!(full.len(), 2);
    assert_eq!(full[0].id, v2.id, "the newest comes first");
    let old = full.iter().find(|i| i.id == v1.id).unwrap();
    assert_eq!(old.superseded_by.as_deref(), Some(v2.id.as_str()));
    assert!(store
        .query(&board, "run", Some(BlackboardKind::Decision), true)
        .is_empty());
}

#[test]
fn superseding_an_already_superseded_item_is_refused() {
    let mut board = empty_board();
    let store = BlackboardStore::new();
    let v1 = store
        .post(&mut board, "run", finding("v1", artifact("a")))
        .unwrap();
    store
        .supersede(&mut board, "run", &v1.id, finding("v2", artifact("b")))
        .unwrap();
    let err = store
        .supersede(&mut board, "run", &v1.id, finding("v2b", artifact("c")))
        .unwrap_err();
    assert!(matches!(err, BlackboardError::AlreadySuperseded(_)));
    let live = store.query(&board, "run", Some(BlackboardKind::Finding), false);
    assert_eq!(live.len(), 1, "the chain never forked");
}

#[test]
fn a_refused_post_changes_nothing() {
    let mut board = empty_board();
    let store = BlackboardStore::new();
    store
        .post_as(&mut board, "run", "i".to_owned(), finding("v1", artifact("a")))
        .unwrap();
    let before = board.clone();
    let twice = store.post_as(
        &mut board,
        "other",
        "i".to_owned(),
        finding("v1", artifact("a")),
    );
    assert!(matches!(twice, Err(BlackboardError::Database(_))));
    let taken = store.supersede_as(
        &mut board,
        "run",
        "i",
        "i".to_owned(),
        finding("v2", artifact("a")),
    );
    assert!(matches!(taken, Err(BlackboardError::Database(_))));
    let ghost = store.supersede(&mut board, "run", "ghost", finding("v2", artifact("a")));
    assert_eq!(ghost, Err(BlackboardError::NotFound("ghost".to_owned())));
    let bare = store.supersede(&mut board, "run", "i", finding("v2", vec![]));
    assert_eq!(bare, Err(BlackboardError::EvidenceRequired("finding")));
    assert_eq!(board, before);
}

#[test]
fn get_returns_an_item_scoped_to_its_run() {
    let mut board = empty_board();
    let store = BlackboardStore::new();
    let posted = store
        .post(&mut board, "run-a", finding("in A", e_is_one()))
        .unwrap();
    let got = store.get(&board, "run-a", &posted.id);
    assert_eq!(got, Some(&posted));
    assert!(store.get(&board, "run-b", &posted.id).is_none());
    assert!(store.get(&board, "run-a", "ghost").is_none());
}

#[test]
fn history_walks_the_full_supersession_chain() {
    let mut board = empty_board();
    let store = BlackboardStore::new();
    let v1 = store
        .post(&mut board, "run", finding("v1", artifact("a")))
        .unwrap();
    let v2 = store
        .supersede(&mut board, "run", &v1.id, finding("v2", artifact("b")))
        .unwrap();
    let v3 = store
        .supersede(&mut board, "run", &v2.id, finding("v3", artifact("c")))
        .unwrap();
    let expected = [v1.id.as_str(), v2.id.as_str(), v3.id.as_str()];
    for anchor in [&v1.id, &v2.id, &v3.id] {
        let chain = store.history(&board, "run", anchor);
        let ids: Vec<&str> = chain.iter().map(|i| i.id.as_str()).collect();
        assert_eq!(
            ids, expected,
            "chain from {anchor} must be the full lineage"
        );
        let revisions: Vec<u32> = chain.iter().map(|i| i.revision).collect();
        assert_eq!(revisions, vec![1, 2, 3]);
        assert_eq!(chain.last().unwrap().superseded_by, None);
    }
    assert!(store.history(&board, "run", "ghost").is_empty());
}

#[test]
fn blackboards_are_isolated_per_workflow_run() {
    let mut board = empty_board();
    let store = BlackboardStore::new();
    store
        .post(&mut board, "run-a", finding("only in A", e_is_one()))
        .unwrap();
    assert_eq!(store.query(&board, "run-a", None, false).len(), 1);
    assert!(store.query(&board, "run-b", None, false).is_empty());
}

#[test]
fn kinds_are_spelled_and_read_back() {
    let claims = [
        BlackboardKind::Finding,
        BlackboardKind::Decision,
        BlackboardKind::TestResult,
        BlackboardKind::ProposedPatch,
        BlackboardKind::CodeLocation,
    ];
    let others = [
        BlackboardKind::Hypothesis,
        BlackboardKind::DocumentDraft,
        BlackboardKind::OpenQuestion,
    ];
    for kind in claims {
        assert!(kind.requires_evidence());
        assert_eq!(BlackboardKind::parse(kind.as_str()), Ok(kind));
    }
    for kind in others {
        assert!(!kind.requires_evidence());
        assert_eq!(BlackboardKind::parse(kind.as_str()), Ok(kind));
    }
    assert_eq!(
        BlackboardKind::parse("odd"),
        Err(BlackboardError::NotFound("kind odd".to_owned()))
    );
}
