//! Transaction protocol scenarios run through the engine.

use indexed_db::{
    make_key_range, Cmd, CursorDirection, Error, Failure, KeyBound, Registry, Response, RunReport,
    RunResult, Script, Step, Store, TransactionMode, TransactionResult,
};

fn run(
    reg: &mut Registry,
    store: &mut Store<&'static str>,
    mode: TransactionMode,
    steps: Vec<Step<&'static str>>,
    body_result: Result<u64, u64>,
) -> RunReport<&'static str> {
    let script = Script { steps, body_result };
    indexed_db::run_script(reg, store, mode, &script)
}

fn ok_value(report: &RunReport<&'static str>) -> Option<u64> {
    match &report.result {
        RunResult::Completed(TransactionResult::Done(Ok(v))) => Some(*v),
        _ => None,
    }
}

fn failure(report: &RunReport<&'static str>) -> Option<Failure> {
    match &report.result {
        RunResult::Completed(TransactionResult::Done(Err(f))) => Some(*f),
        _ => None,
    }
}

#[test]
fn body_result_and_issued_requests_are_faithful() {
    let mut reg = Registry::new();
    let mut store = Store::empty();
    let steps = vec![
        Step::Do(vec![Cmd::AddKv(10, "a")]),
        Step::Do(vec![Cmd::Get(10), Cmd::Count]),
    ];
    let report = run(&mut reg, &mut store, TransactionMode::ReadWrite, steps, Ok(42));
    assert_eq!(ok_value(&report), Some(42));
    assert!(!report.aborted);
    assert_eq!(
        report.issued,
        vec![Cmd::AddKv(10, "a"), Cmd::Get(10), Cmd::Count]
    );
    assert_eq!(
        report.responses,
        vec![
            Ok(Response::Done),
            Ok(Response::Got(Some("a"))),
            Ok(Response::Counted(1)),
        ]
    );
}

#[test]
fn error_after_writes_leaves_no_trace() {
    let mut reg = Registry::new();
    let mut store = Store::empty();
    let steps = vec![
        Step::Do(vec![Cmd::AddKv(1, "x")]),
        Step::Do(vec![Cmd::AddKv(2, "y")]),
    ];
    let report = run(&mut reg, &mut store, TransactionMode::ReadWrite, steps, Err(7));
    assert_eq!(failure(&report), Some(Failure::User(7)));
    assert!(report.aborted);
    // a later transaction observes the pre-write state
    let check = run(
        &mut reg,
        &mut store,
        TransactionMode::ReadOnly,
        vec![Step::Do(vec![Cmd::Count, Cmd::Get(1)])],
        Ok(0),
    );
    assert_eq!(
        check.responses,
        vec![Ok(Response::Counted(0)), Ok(Response::Got(None))]
    );
}

#[test]
fn failed_request_aborts_and_discards_writes() {
    let mut reg = Registry::new();
    let mut store = Store::empty();
    let seed = run(
        &mut reg,
        &mut store,
        TransactionMode::ReadWrite,
        vec![Step::Do(vec![Cmd::AddKv(5, "kept")])],
        Ok(0),
    );
    assert!(!seed.aborted);
    // the duplicate add fails; the write before it is rolled back too
    let steps = vec![
        Step::Do(vec![Cmd::AddKv(6, "lost")]),
        Step::Do(vec![Cmd::AddKv(5, "dup")]),
    ];
    let report = run(&mut reg, &mut store, TransactionMode::ReadWrite, steps, Ok(0));
    assert_eq!(failure(&report), Some(Failure::Op(Error::AlreadyExists)));
    assert!(report.aborted);
    assert_eq!(store.count(), 1);
    assert_eq!(store.get(6), None);
    assert_eq!(store.get(5), Some("kept"));
}

#[test]
fn foreign_await_raises_forbidden_suspension_and_aborts() {
    let mut reg = Registry::new();
    let mut store = Store::empty();
    let steps = vec![
        Step::Do(vec![Cmd::AddKv(1, "x")]),
        Step::AwaitForeign,
        Step::Do(vec![Cmd::AddKv(2, "y")]),
    ];
    let report = run(&mut reg, &mut store, TransactionMode::ReadWrite, steps, Ok(0));
    assert!(matches!(
        report.result,
        RunResult::Completed(TransactionResult::PolledForbiddenThing)
    ));
    assert!(report.aborted);
    assert_eq!(store.count(), 0);
    // the request before the violation was still host-observed
    assert_eq!(report.issued, vec![Cmd::AddKv(1, "x")]);
}

#[test]
fn joined_operations_both_resolve() {
    let mut reg = Registry::new();
    let mut store = Store::empty();
    // two adds issued together, no await between them
    let steps = vec![Step::Do(vec![Cmd::Add("foo"), Cmd::Add("bar")])];
    let report = run(&mut reg, &mut store, TransactionMode::ReadWrite, steps, Ok(1));
    assert_eq!(ok_value(&report), Some(1));
    assert_eq!(
        report.responses,
        vec![Ok(Response::Added(1)), Ok(Response::Added(2))]
    );
    assert_eq!(store.count(), 2);
    assert_eq!(store.get(1), Some("foo"));
    assert_eq!(store.get(2), Some("bar"));
}

#[test]
fn two_adds_then_count_in_next_transaction() {
    let mut reg = Registry::new();
    let mut store = Store::empty();
    let writer = run(
        &mut reg,
        &mut store,
        TransactionMode::ReadWrite,
        vec![
            Step::Do(vec![Cmd::Add("foo")]),
            Step::Do(vec![Cmd::Add("bar")]),
        ],
        Ok(0),
    );
    assert!(!writer.aborted);
    let reader = run(
        &mut reg,
        &mut store,
        TransactionMode::ReadOnly,
        vec![Step::Do(vec![Cmd::Count])],
        Ok(0),
    );
    assert_eq!(reader.responses, vec![Ok(Response::Counted(2))]);
}

#[test]
fn cursor_walks_and_deletes_all_three_records() {
    let mut reg = Registry::new();
    let mut store = Store::empty();
    let seed = run(
        &mut reg,
        &mut store,
        TransactionMode::ReadWrite,
        vec![Step::Do(vec![Cmd::Add("one"), Cmd::Add("two"), Cmd::Add("three")])],
        Ok(0),
    );
    assert!(!seed.aborted);
    let mut steps = vec![Step::Do(vec![Cmd::CursorOpen(CursorDirection::Next)])];
    for _ in 0..3 {
        steps.push(Step::Do(vec![Cmd::CursorValue]));
        steps.push(Step::Do(vec![Cmd::CursorDelete]));
        steps.push(Step::Do(vec![Cmd::CursorAdvance(1)]));
    }
    steps.push(Step::Do(vec![Cmd::CursorValue]));
    steps.push(Step::Do(vec![Cmd::Count]));
    let report = run(&mut reg, &mut store, TransactionMode::ReadWrite, steps, Ok(0));
    assert_eq!(ok_value(&report), Some(0));
    assert_eq!(
        report.responses,
        vec![
            Ok(Response::Opened(true)),
            Ok(Response::Got(Some("one"))),
            Ok(Response::Done),
            Ok(Response::Done),
            Ok(Response::Got(Some("two"))),
            Ok(Response::Done),
            Ok(Response::Done),
            Ok(Response::Got(Some("three"))),
            Ok(Response::Done),
            Ok(Response::Done),
            Ok(Response::Got(None)),
            Ok(Response::Counted(0)),
        ]
    );
    assert_eq!(store.count(), 0);
}

#[test]
fn nested_run_aborts_outer_transaction() {
    let mut reg = Registry::new();
    let mut store = Store::empty();
    let steps = vec![Step::Do(vec![Cmd::AddKv(1, "x")]), Step::Nested];
    let report = run(&mut reg, &mut store, TransactionMode::ReadWrite, steps, Ok(0));
    assert!(matches!(report.result, RunResult::NestingViolation));
    assert!(report.aborted);
    assert_eq!(store.count(), 0);
    // the registry is released again: a later run works
    let later = run(
        &mut reg,
        &mut store,
        TransactionMode::ReadOnly,
        vec![Step::Do(vec![Cmd::Count])],
        Ok(0),
    );
    assert_eq!(later.responses, vec![Ok(Response::Counted(0))]);
}

#[test]
fn read_only_transaction_refuses_writes() {
    let mut reg = Registry::new();
    let mut store = Store::empty();
    let report = run(
        &mut reg,
        &mut store,
        TransactionMode::ReadOnly,
        vec![Step::Do(vec![Cmd::AddKv(1, "x")])],
        Ok(0),
    );
    assert_eq!(failure(&report), Some(Failure::Op(Error::ReadOnly)));
    assert!(report.aborted);
    // a synchronous refusal issues no request
    assert_eq!(report.issued, Vec::<Cmd<&'static str>>::new());
    assert_eq!(report.responses, vec![Err(Error::ReadOnly)]);
}

#[test]
fn sync_refusal_beats_failed_request_in_one_segment() {
    let mut reg = Registry::new();
    let mut store = Store::empty();
    let seed = run(
        &mut reg,
        &mut store,
        TransactionMode::ReadWrite,
        vec![Step::Do(vec![Cmd::AddKv(1, "x")])],
        Ok(0),
    );
    assert!(!seed.aborted);
    // the duplicate add fails only when it resolves; the zero-advance is
    // refused synchronously and its ready error reaches the body first
    let steps = vec![Step::Do(vec![
        Cmd::AddKv(1, "dup"),
        Cmd::CursorOpen(CursorDirection::Next),
        Cmd::CursorAdvance(0),
    ])];
    let report = run(&mut reg, &mut store, TransactionMode::ReadWrite, steps, Ok(0));
    assert_eq!(failure(&report), Some(Failure::Op(Error::InvalidArgument)));
    assert!(report.aborted);
}

#[test]
fn cursor_operations_after_exhaustion_are_refused() {
    let mut reg = Registry::new();
    let mut store = Store::empty();
    let steps = vec![
        Step::Do(vec![Cmd::CursorOpen(CursorDirection::Next)]),
        Step::Do(vec![Cmd::CursorDelete]),
    ];
    let report = run(&mut reg, &mut store, TransactionMode::ReadWrite, steps, Ok(0));
    assert_eq!(failure(&report), Some(Failure::Op(Error::CursorCompleted)));
}

#[test]
fn cursor_advance_until_moves_directly() {
    let mut reg = Registry::new();
    let mut store = Store::empty();
    let seed = run(
        &mut reg,
        &mut store,
        TransactionMode::ReadWrite,
        vec![Step::Do(vec![
            Cmd::AddKv(1, "a"),
            Cmd::AddKv(3, "b"),
            Cmd::AddKv(9, "c"),
        ])],
        Ok(0),
    );
    assert!(!seed.aborted);
    let steps = vec![
        Step::Do(vec![Cmd::CursorOpen(CursorDirection::Next)]),
        Step::Do(vec![Cmd::CursorAdvanceUntil(4)]),
        Step::Do(vec![Cmd::CursorKey, Cmd::CursorValue]),
    ];
    let report = run(&mut reg, &mut store, TransactionMode::ReadWrite, steps, Ok(0));
    assert_eq!(
        report.responses,
        vec![
            Ok(Response::Opened(true)),
            Ok(Response::Done),
            Ok(Response::GotKey(Some(9))),
            Ok(Response::Got(Some("c"))),
        ]
    );
}

#[test]
fn cursor_advance_until_backwards_key_is_refused() {
    let mut reg = Registry::new();
    let mut store = Store::empty();
    let seed = run(
        &mut reg,
        &mut store,
        TransactionMode::ReadWrite,
        vec![Step::Do(vec![Cmd::AddKv(5, "a"), Cmd::AddKv(8, "b")])],
        Ok(0),
    );
    assert!(!seed.aborted);
    let steps = vec![
        Step::Do(vec![Cmd::CursorOpen(CursorDirection::Next)]),
        Step::Do(vec![Cmd::CursorAdvanceUntil(5)]),
    ];
    let report = run(&mut reg, &mut store, TransactionMode::ReadWrite, steps, Ok(0));
    assert_eq!(failure(&report), Some(Failure::Op(Error::InvalidKey)));
}

#[test]
fn cursor_primary_key_seek_is_refused_on_store_cursors() {
    let mut reg = Registry::new();
    let mut store = Store::empty();
    let seed = run(
        &mut reg,
        &mut store,
        TransactionMode::ReadWrite,
        vec![Step::Do(vec![Cmd::AddKv(1, "a")])],
        Ok(0),
    );
    assert!(!seed.aborted);
    let steps = vec![
        Step::Do(vec![Cmd::CursorOpen(CursorDirection::Next)]),
        Step::Do(vec![Cmd::CursorAdvanceUntilPrimaryKey(1, 2)]),
    ];
    let report = run(&mut reg, &mut store, TransactionMode::ReadWrite, steps, Ok(0));
    assert_eq!(failure(&report), Some(Failure::Op(Error::InvalidArgument)));
}

#[test]
fn cursor_update_rewrites_current_record() {
    let mut reg = Registry::new();
    let mut store = Store::empty();
    let seed = run(
        &mut reg,
        &mut store,
        TransactionMode::ReadWrite,
        vec![Step::Do(vec![Cmd::AddKv(2, "old"), Cmd::AddKv(4, "other")])],
        Ok(0),
    );
    assert!(!seed.aborted);
    let steps = vec![
        Step::Do(vec![Cmd::CursorOpen(CursorDirection::Next)]),
        Step::Do(vec![Cmd::CursorUpdate("new")]),
    ];
    let report = run(&mut reg, &mut store, TransactionMode::ReadWrite, steps, Ok(0));
    assert!(!report.aborted);
    assert_eq!(store.get(2), Some("new"));
    assert_eq!(store.get(4), Some("other"));
}

#[test]
fn backward_cursor_starts_at_highest_key() {
    let mut reg = Registry::new();
    let mut store = Store::empty();
    let seed = run(
        &mut reg,
        &mut store,
        TransactionMode::ReadWrite,
        vec![Step::Do(vec![Cmd::AddKv(1, "lo"), Cmd::AddKv(9, "hi")])],
        Ok(0),
    );
    assert!(!seed.aborted);
    let steps = vec![
        Step::Do(vec![Cmd::CursorOpen(CursorDirection::Prev)]),
        Step::Do(vec![Cmd::CursorKey, Cmd::CursorValue]),
        Step::Do(vec![Cmd::CursorAdvance(1)]),
        Step::Do(vec![Cmd::CursorKey]),
    ];
    let report = run(&mut reg, &mut store, TransactionMode::ReadOnly, steps, Ok(0));
    assert_eq!(
        report.responses,
        vec![
            Ok(Response::Opened(true)),
            Ok(Response::GotKey(Some(9))),
            Ok(Response::Got(Some("hi"))),
            Ok(Response::Done),
            Ok(Response::GotKey(Some(1))),
        ]
    );
}

#[test]
fn cursor_on_empty_store_opens_exhausted() {
    let mut reg = Registry::new();
    let mut store = Store::empty();
    let steps = vec![
        Step::Do(vec![Cmd::CursorOpen(CursorDirection::Next)]),
        Step::Do(vec![Cmd::CursorValue, Cmd::CursorKey]),
    ];
    let report = run(&mut reg, &mut store, TransactionMode::ReadOnly, steps, Ok(0));
    assert_eq!(
        report.responses,
        vec![
            Ok(Response::Opened(false)),
            Ok(Response::Got(None)),
            Ok(Response::GotKey(None)),
        ]
    );
}

#[test]
fn cursor_advance_past_the_end_exhausts() {
    let mut reg = Registry::new();
    let mut store = Store::empty();
    let seed = run(
        &mut reg,
        &mut store,
        TransactionMode::ReadWrite,
        vec![Step::Do(vec![Cmd::AddKv(1, "a"), Cmd::AddKv(2, "b")])],
        Ok(0),
    );
    assert!(!seed.aborted);
    let steps = vec![
        Step::Do(vec![Cmd::CursorOpen(CursorDirection::Next)]),
        Step::Do(vec![Cmd::CursorAdvance(5)]),
        Step::Do(vec![Cmd::CursorValue]),
    ];
    let report = run(&mut reg, &mut store, TransactionMode::ReadOnly, steps, Ok(0));
    assert_eq!(
        report.responses,
        vec![
            Ok(Response::Opened(true)),
            Ok(Response::Done),
            Ok(Response::Got(None)),
        ]
    );
}

#[test]
fn keyless_add_with_exhausted_generator_fails() {
    let mut reg = Registry::new();
    let mut store = Store::empty();
    let seed = run(
        &mut reg,
        &mut store,
        TransactionMode::ReadWrite,
        vec![Step::Do(vec![Cmd::PutKv(u64::MAX, "top")])],
        Ok(0),
    );
    assert!(!seed.aborted);
    let report = run(
        &mut reg,
        &mut store,
        TransactionMode::ReadWrite,
        vec![Step::Do(vec![Cmd::Add("more")])],
        Ok(0),
    );
    assert_eq!(failure(&report), Some(Failure::Op(Error::AlreadyExists)));
    assert_eq!(store.count(), 1);
}

#[test]
fn ranged_requests_inside_a_transaction() {
    let mut reg = Registry::new();
    let mut store = Store::empty();
    let seed = run(
        &mut reg,
        &mut store,
        TransactionMode::ReadWrite,
        vec![Step::Do(vec![
            Cmd::AddKv(1, "a"),
            Cmd::AddKv(4, "b"),
            Cmd::AddKv(6, "c"),
            Cmd::AddKv(9, "d"),
        ])],
        Ok(0),
    );
    assert!(!seed.aborted);
    let mid = make_key_range(KeyBound::Included(4), KeyBound::Included(6)).unwrap();
    let report = run(
        &mut reg,
        &mut store,
        TransactionMode::ReadWrite,
        vec![
            Step::Do(vec![Cmd::CountIn(mid), Cmd::GetFirstIn(mid)]),
            Step::Do(vec![Cmd::DeleteRange(mid)]),
            Step::Do(vec![Cmd::Count]),
        ],
        Ok(0),
    );
    assert!(!report.aborted);
    assert_eq!(
        report.responses,
        vec![
            Ok(Response::Counted(2)),
            Ok(Response::Got(Some("b"))),
            Ok(Response::Done),
            Ok(Response::Counted(2)),
        ]
    );
    assert_eq!(store.count(), 2);
    assert_eq!(store.get(4), None);
    assert_eq!(store.get(1), Some("a"));
}

#[test]
fn ranged_delete_is_discarded_on_abort() {
    let mut reg = Registry::new();
    let mut store = Store::empty();
    let seed = run(
        &mut reg,
        &mut store,
        TransactionMode::ReadWrite,
        vec![Step::Do(vec![Cmd::AddKv(1, "a"), Cmd::AddKv(2, "b")])],
        Ok(0),
    );
    assert!(!seed.aborted);
    let all = make_key_range(KeyBound::Included(0), KeyBound::Unbounded).unwrap();
    let report = run(
        &mut reg,
        &mut store,
        TransactionMode::ReadWrite,
        vec![Step::Do(vec![Cmd::DeleteRange(all)])],
        Err(3),
    );
    assert_eq!(failure(&report), Some(Failure::User(3)));
    assert_eq!(store.count(), 2);
}

#[test]
fn ranged_delete_is_refused_read_only() {
    let mut reg = Registry::new();
    let mut store = Store::empty();
    let all = make_key_range(KeyBound::Included(0), KeyBound::Unbounded).unwrap();
    let report = run(
        &mut reg,
        &mut store,
        TransactionMode::ReadOnly,
        vec![Step::Do(vec![Cmd::DeleteRange(all)])],
        Ok(0),
    );
    assert_eq!(failure(&report), Some(Failure::Op(Error::ReadOnly)));
}

#[test]
fn put_overwrites_and_clear_empties() {
    let mut reg = Registry::new();
    let mut store = Store::empty();
    let report = run(
        &mut reg,
        &mut store,
        TransactionMode::ReadWrite,
        vec![
            Step::Do(vec![Cmd::PutKv(1, "a"), Cmd::PutKv(1, "b"), Cmd::Contains(1)]),
            Step::Do(vec![Cmd::Get(1)]),
            Step::Do(vec![Cmd::Clear, Cmd::Count]),
        ],
        Ok(0),
    );
    assert!(!report.aborted);
    assert_eq!(
        report.responses,
        vec![
            Ok(Response::Done),
            Ok(Response::Done),
            Ok(Response::Has(true)),
            Ok(Response::Got(Some("b"))),
            Ok(Response::Done),
            Ok(Response::Counted(0)),
        ]
    );
    assert_eq!(store.count(), 0);
}
