//! The transaction engine: running a body against a store.
//!
//! A transaction body is modelled as a script: a sequence of poll
//! segments, each issuing a batch of requests and then suspending until
//! they all resolve, followed by the body's own result. Two further step
//! kinds model the two protocol violations: suspending on something
//! that is not a request of this transaction, and invoking a nested run.
//! The engine drives the script exactly as the driver drives a real
//! body: it copies the committed store into a working store, binds the
//! registry, polls segment by segment while keeping the driver's
//! in-flight count, and finally commits the working store on a
//! successful result or discards it on any other outcome.
//!
//! The semantics of every command and of a whole run are defined by
//! specification functions, and the engine is proved to follow them;
//! the protocol laws are proved about the same functions.

use vstd::prelude::*;
use crate::cursor::{advance_n, cursor_advance_target, cursor_closed, CursorCtx, CursorDirection};
use crate::driver::{Driver, DriverAction, PollBody, TransactionResult};
use crate::error::Error;
use crate::registry::Registry;
use crate::keyrange::KeyRange;
use crate::store::{contains_key, first_entry, first_in_range, range_count, seek_ge, seek_le,
    spec_bump, spec_get, spec_put, spec_remove, spec_remove_range, Store};

verus! {

/// Whether a transaction may write.
#[derive(Clone, Copy, Debug, PartialEq, Eq, Structural)]
pub enum TransactionMode {
    /// Reads only; every write request is refused by the host.
    ReadOnly,
    /// Reads and writes.
    ReadWrite,
}

/// One request a body can make against its transaction. All but the two
/// buffered cursor reads are host requests, each suspending the body
/// until the host answers.
#[derive(Clone, Copy, Debug, PartialEq, Eq, Structural)]
pub enum Cmd<V> {
    /// Add a record under a generated key; refused if the generator is
    /// exhausted.
    Add(V),
    /// Add a record at the given key; refused if the key exists.
    AddKv(u64, V),
    /// Write a record under a generated key.
    Put(V),
    /// Write a record at the given key, replacing any existing one.
    PutKv(u64, V),
    /// Delete the record at the given key, if any.
    Delete(u64),
    /// Delete every record.
    Clear,
    /// Read the record at the given key.
    Get(u64),
    /// Count the records.
    Count,
    /// Whether a record exists at the given key.
    Contains(u64),
    /// Count the records whose key lies in the range.
    CountIn(KeyRange),
    /// Read the first record, in key order, whose key lies in the range.
    GetFirstIn(KeyRange),
    /// Delete every record whose key lies in the range.
    DeleteRange(KeyRange),
    /// Open a cursor over the records, positioned on the first record
    /// in walk order.
    CursorOpen(CursorDirection),
    /// Read the buffered record's value; no host request.
    CursorValue,
    /// Read the buffered record's key; no host request.
    CursorKey,
    /// Move the cursor onwards by the given number of records.
    CursorAdvance(u32),
    /// Move the cursor to the first record at or beyond the given key
    /// in walk order.
    CursorAdvanceUntil(u64),
    /// Move the cursor by index key and primary key; only meaningful on
    /// index-backed cursors, which this store-backed model refuses.
    CursorAdvanceUntilPrimaryKey(u64, u64),
    /// Delete the record the cursor stands on.
    CursorDelete,
    /// Replace the value of the record the cursor stands on.
    CursorUpdate(V),
}

/// What a successful request answers with.
#[derive(Clone, Copy, Debug, PartialEq, Eq, Structural)]
pub enum Response<V> {
    /// The key a keyless write got from the generator.
    Added(u64),
    /// Plain completion.
    Done,
    /// A value read, present or absent.
    Got(Option<V>),
    /// A key read, present or absent.
    GotKey(Option<u64>),
    /// A record count.
    Counted(usize),
    /// An existence answer.
    Has(bool),
    /// A cursor opened; true when it stands on a record.
    Opened(bool),
}

/// The effect of one command: the store, generator and cursor after it,
/// its outcome, whether the host refused it synchronously (in which case
/// no request was issued and the body stops with the error), and whether
/// it issued a host request.
pub struct CmdEffect<V> {
    /// The records after the command.
    pub w: Seq<(u64, V)>,
    /// The key generator after the command.
    pub gen: u64,
    /// The cursor after the command.
    pub cur: CursorCtx<V>,
    /// The command's outcome.
    pub res: Result<Response<V>, Error>,
    /// True when the host refused the command synchronously.
    pub sync_fail: bool,
    /// True when the command issued a host request.
    pub issues: bool,
}

/// The effect of a command that changes nothing and is refused
/// synchronously.
pub open spec fn sync_refused<V>(w: Seq<(u64, V)>, gen: u64, cur: CursorCtx<V>, e: Error) -> CmdEffect<
    V,
> {
    CmdEffect { w, gen, cur, res: Err(e), sync_fail: true, issues: false }
}

/// The effect of a request that was issued and answered.
pub open spec fn answered<V>(
    w: Seq<(u64, V)>,
    gen: u64,
    cur: CursorCtx<V>,
    res: Result<Response<V>, Error>,
) -> CmdEffect<V> {
    CmdEffect { w, gen, cur, res, sync_fail: false, issues: true }
}

/// Whether a command writes, so that a read-only transaction refuses it
/// synchronously.
pub open spec fn is_write_cmd<V>(c: Cmd<V>) -> bool {
    ||| c is Add
    ||| c is AddKv
    ||| c is Put
    ||| c is PutKv
    ||| c is Delete
    ||| c is DeleteRange
    ||| c is Clear
}

/// The key of the record the cursor stands on; zero when it stands on
/// none.
pub open spec fn buf_key<V>(cur: CursorCtx<V>) -> u64 {
    match cur.buf {
        Some(e) => e.0,
        None => 0,
    }
}

/// Whether the cursor stands on a record; a cursor never opened counts
/// as exhausted.
pub open spec fn cursor_live<V>(cur: CursorCtx<V>) -> bool {
    cur.opened && cur.buf is Some
}

/// The semantics of one command: what the host does with the request,
/// given the transaction's mode, the working records, the key generator
/// and the cursor.
pub open spec fn cmd_step<V: Copy>(
    mode: TransactionMode,
    w: Seq<(u64, V)>,
    gen: u64,
    cur: CursorCtx<V>,
    c: Cmd<V>,
) -> CmdEffect<V> {
    if mode is ReadOnly && is_write_cmd(c) {
        sync_refused(w, gen, cur, Error::ReadOnly)
    } else {
        match c {
            Cmd::Add(v) => if gen == u64::MAX {
                answered(w, gen, cur, Err(Error::AlreadyExists))
            } else {
                answered(spec_put(w, gen, v), (gen + 1) as u64, cur, Ok(Response::Added(gen)))
            },
            Cmd::AddKv(k, v) => if contains_key(w, k) {
                answered(w, gen, cur, Err(Error::AlreadyExists))
            } else {
                answered(spec_put(w, k, v), spec_bump(gen, k), cur, Ok(Response::Done))
            },
            Cmd::Put(v) => if gen == u64::MAX {
                answered(w, gen, cur, Err(Error::AlreadyExists))
            } else {
                answered(spec_put(w, gen, v), (gen + 1) as u64, cur, Ok(Response::Added(gen)))
            },
            Cmd::PutKv(k, v) => answered(
                spec_put(w, k, v),
                spec_bump(gen, k),
                cur,
                Ok(Response::Done),
            ),
            Cmd::Delete(k) => answered(spec_remove(w, k), gen, cur, Ok(Response::Done)),
            Cmd::Clear => answered(Seq::empty(), gen, cur, Ok(Response::Done)),
            Cmd::Get(k) => answered(w, gen, cur, Ok(Response::Got(spec_get(w, k)))),
            Cmd::Count => answered(w, gen, cur, Ok(Response::Counted(w.len() as usize))),
            Cmd::Contains(k) => answered(w, gen, cur, Ok(Response::Has(contains_key(w, k)))),
            Cmd::CountIn(r) => answered(
                w,
                gen,
                cur,
                Ok(Response::Counted(range_count(w, r) as usize)),
            ),
            Cmd::GetFirstIn(r) => answered(
                w,
                gen,
                cur,
                Ok(
                    Response::Got(
                        match first_in_range(w, r) {
                            Some(e) => Some(e.1),
                            None => None,
                        },
                    ),
                ),
            ),
            Cmd::DeleteRange(r) => answered(
                spec_remove_range(w, r),
                gen,
                cur,
                Ok(Response::Done),
            ),
            Cmd::CursorOpen(d) => {
                let buf = first_entry(w, d.spec_forward());
                answered(
                    w,
                    gen,
                    CursorCtx { opened: true, buf, dir: d },
                    Ok(Response::Opened(buf is Some)),
                )
            },
            Cmd::CursorValue => CmdEffect {
                w,
                gen,
                cur,
                res: Ok(
                    Response::Got(
                        match cur.buf {
                            Some(e) => Some(e.1),
                            None => None,
                        },
                    ),
                ),
                sync_fail: false,
                issues: false,
            },
            Cmd::CursorKey => CmdEffect {
                w,
                gen,
                cur,
                res: Ok(
                    Response::GotKey(
                        match cur.buf {
                            Some(e) => Some(e.0),
                            None => None,
                        },
                    ),
                ),
                sync_fail: false,
                issues: false,
            },
            Cmd::CursorAdvance(n) => if !cursor_live(cur) {
                sync_refused(w, gen, cur, Error::CursorCompleted)
            } else if n == 0 {
                sync_refused(w, gen, cur, Error::InvalidArgument)
            } else {
                let buf = advance_n(w, buf_key(cur), n as nat, cur.dir.spec_forward());
                answered(w, gen, CursorCtx { opened: true, buf, dir: cur.dir }, Ok(Response::Done))
            },
            Cmd::CursorAdvanceUntil(k) => if !cursor_live(cur) {
                sync_refused(w, gen, cur, Error::CursorCompleted)
            } else if (cur.dir.spec_forward() && k <= buf_key(cur)) || (!cur.dir.spec_forward()
                && k >= buf_key(cur)) {
                sync_refused(w, gen, cur, Error::InvalidKey)
            } else {
                let buf = if cur.dir.spec_forward() {
                    seek_ge(w, k)
                } else {
                    seek_le(w, k)
                };
                answered(w, gen, CursorCtx { opened: true, buf, dir: cur.dir }, Ok(Response::Done))
            },
            Cmd::CursorAdvanceUntilPrimaryKey(_k, _pk) => if !cursor_live(cur) {
                sync_refused(w, gen, cur, Error::CursorCompleted)
            } else {
                sync_refused(w, gen, cur, Error::InvalidArgument)
            },
            Cmd::CursorDelete => if !cursor_live(cur) {
                sync_refused(w, gen, cur, Error::CursorCompleted)
            } else if mode is ReadOnly {
                sync_refused(w, gen, cur, Error::ReadOnly)
            } else {
                answered(spec_remove(w, buf_key(cur)), gen, cur, Ok(Response::Done))
            },
            Cmd::CursorUpdate(v) => if !cursor_live(cur) {
                sync_refused(w, gen, cur, Error::CursorCompleted)
            } else if mode is ReadOnly {
                sync_refused(w, gen, cur, Error::ReadOnly)
            } else {
                answered(
                    spec_put(w, buf_key(cur), v),
                    spec_bump(gen, buf_key(cur)),
                    cur,
                    Ok(Response::Done),
                )
            },
        }
    }
}

/// Perform one command on the working state, following [`cmd_step`]
/// exactly. Returns the outcome, whether the host refused synchronously,
/// and whether a host request was issued.
#[allow(unused_parens)]
fn do_cmd<V: Copy>(
    mode: TransactionMode,
    working: &mut Store<V>,
    cur: &mut CursorCtx<V>,
    c: &Cmd<V>,
) -> (out: (Result<Response<V>, Error>, bool, bool))
    requires
        old(working).wf(),
    ensures
        final(working).wf(),
        ({
            let fx = cmd_step(mode, old(working)@, old(working).keygen(), *old(cur), *c);
            &&& final(working)@ == fx.w
            &&& final(working).keygen() == fx.gen
            &&& *final(cur) == fx.cur
            &&& out.0 == fx.res
            &&& out.1 == fx.sync_fail
            &&& out.2 == fx.issues
        }),
{
    let read_only = match mode {
        TransactionMode::ReadOnly => true,
        TransactionMode::ReadWrite => false,
    };
    let is_write = match c {
        Cmd::Add(_) | Cmd::AddKv(_, _) | Cmd::Put(_) | Cmd::PutKv(_, _) | Cmd::Delete(_)
            | Cmd::DeleteRange(_) | Cmd::Clear => true,
        _ => false,
    };
    if read_only && is_write {
        return (Err(Error::ReadOnly), true, false);
    }
    match c {
        Cmd::Add(v) | Cmd::Put(v) => {
            match working.add_auto(*v) {
                Ok(k) => (Ok(Response::Added(k)), false, true),
                Err(e) => (Err(e), false, true),
            }
        },
        Cmd::AddKv(k, v) => {
            match working.add(*k, *v) {
                Ok(_) => (Ok(Response::Done), false, true),
                Err(e) => (Err(e), false, true),
            }
        },
        Cmd::PutKv(k, v) => {
            working.put(*k, *v);
            (Ok(Response::Done), false, true)
        },
        Cmd::Delete(k) => {
            working.delete(*k);
            (Ok(Response::Done), false, true)
        },
        Cmd::Clear => {
            working.clear();
            (Ok(Response::Done), false, true)
        },
        Cmd::Get(k) => (Ok(Response::Got(working.get(*k))), false, true),
        Cmd::Count => (Ok(Response::Counted(working.count())), false, true),
        Cmd::Contains(k) => (Ok(Response::Has(working.contains(*k))), false, true),
        Cmd::CountIn(r) => (Ok(Response::Counted(working.count_in(r))), false, true),
        Cmd::GetFirstIn(r) => {
            let v = match working.get_first_in(r) {
                Some(e) => Some(e.1),
                None => None,
            };
            (Ok(Response::Got(v)), false, true)
        },
        Cmd::DeleteRange(r) => {
            working.delete_range(r);
            (Ok(Response::Done), false, true)
        },
        Cmd::CursorOpen(d) => {
            let buf = working.first(d.forward());
            *cur = CursorCtx { opened: true, buf, dir: *d };
            (Ok(Response::Opened(buf.is_some())), false, true)
        },
        Cmd::CursorValue => {
            let v = match cur.buf {
                Some(e) => Some(e.1),
                None => None,
            };
            (Ok(Response::Got(v)), false, false)
        },
        Cmd::CursorKey => {
            let k = match cur.buf {
                Some(e) => Some(e.0),
                None => None,
            };
            (Ok(Response::GotKey(k)), false, false)
        },
        Cmd::CursorAdvance(n) => {
            if !cur.opened {
                return (Err(Error::CursorCompleted), true, false);
            }
            let k = match cur.buf {
                Some(e) => e.0,
                None => {
                    return (Err(Error::CursorCompleted), true, false);
                },
            };
            if *n == 0 {
                return (Err(Error::InvalidArgument), true, false);
            }
            let buf = cursor_advance_target(working, k, *n, cur.dir.forward());
            *cur = CursorCtx { opened: true, buf, dir: cur.dir };
            (Ok(Response::Done), false, true)
        },
        Cmd::CursorAdvanceUntil(k) => {
            if !cur.opened {
                return (Err(Error::CursorCompleted), true, false);
            }
            let at = match cur.buf {
                Some(e) => e.0,
                None => {
                    return (Err(Error::CursorCompleted), true, false);
                },
            };
            let fwd = cur.dir.forward();
            if (fwd && *k <= at) || (!fwd && *k >= at) {
                return (Err(Error::InvalidKey), true, false);
            }
            let buf = if fwd {
                working.next_at_or_above(*k)
            } else {
                working.next_at_or_below(*k)
            };
            *cur = CursorCtx { opened: true, buf, dir: cur.dir };
            (Ok(Response::Done), false, true)
        },
        Cmd::CursorAdvanceUntilPrimaryKey(_k, _pk) => {
            if !cur.opened {
                return (Err(Error::CursorCompleted), true, false);
            }
            if cur.buf.is_none() {
                return (Err(Error::CursorCompleted), true, false);
            }
            (Err(Error::InvalidArgument), true, false)
        },
        Cmd::CursorDelete => {
            if !cur.opened {
                return (Err(Error::CursorCompleted), true, false);
            }
            let k = match cur.buf {
                Some(e) => e.0,
                None => {
                    return (Err(Error::CursorCompleted), true, false);
                },
            };
            if read_only {
                return (Err(Error::ReadOnly), true, false);
            }
            working.delete(k);
            (Ok(Response::Done), false, true)
        },
        Cmd::CursorUpdate(v) => {
            if !cur.opened {
                return (Err(Error::CursorCompleted), true, false);
            }
            let k = match cur.buf {
                Some(e) => e.0,
                None => {
                    return (Err(Error::CursorCompleted), true, false);
                },
            };
            if read_only {
                return (Err(Error::ReadOnly), true, false);
            }
            working.put(k, *v);
            (Ok(Response::Done), false, true)
        },
    }
}

/// One step of a transaction body, as the driver observes it: one poll
/// segment issuing a batch of requests and then awaiting them all, or
/// one of the two protocol violations.
#[derive(Debug)]
pub enum Step<V> {
    /// Run these commands in order — every command's synchronous part
    /// runs before the body suspends — then await all issued requests.
    Do(Vec<Cmd<V>>),
    /// Suspend on something that is not a request of this transaction.
    AwaitForeign,
    /// Invoke a nested transaction run from inside the body.
    Nested,
}

/// A transaction body: its steps, and the result it returns if it runs
/// to its end with every request answered successfully. A failed
/// request makes the body stop with that failure instead, the way
/// bodies propagate request errors with the question-mark operator.
#[derive(Debug)]
pub struct Script<V> {
    /// The body's steps, in order.
    pub steps: Vec<Step<V>>,
    /// The body's own result, as opaque tokens: what it returns when
    /// every request succeeded.
    pub body_result: Result<u64, u64>,
}

/// Why a run did not return the body's success value.
#[derive(Clone, Copy, Debug, PartialEq, Eq, Structural)]
pub enum Failure {
    /// A request of the transaction failed, and the body stopped with
    /// that error.
    Op(Error),
    /// The body itself returned this application error token.
    User(u64),
}

/// The outcome of one run.
#[derive(Debug)]
pub enum RunResult {
    /// The driver brought the transaction to an end: the body's result,
    /// or the forbidden-suspension report.
    Completed(TransactionResult<Result<u64, Failure>>),
    /// The body invoked a nested run: fatal, both transactions aborted.
    NestingViolation,
}

/// What one run reports: the outcome, whether the host transaction was
/// told to abort, and the host-observed traffic — every request issued,
/// and the host's answer to every command.
#[derive(Debug)]
pub struct RunReport<V> {
    /// The outcome.
    pub result: RunResult,
    /// Whether the host transaction was told to abort.
    pub aborted: bool,
    /// Every request issued against the transaction, in order.
    pub issued: Vec<Cmd<V>>,
    /// The host's answer to every command that ran, in order.
    pub responses: Vec<Result<Response<V>, Error>>,
}

/// The error of a failed outcome, if any.
pub open spec fn err_of<V>(r: Result<Response<V>, Error>) -> Option<Error> {
    match r {
        Ok(_) => None,
        Err(e) => Some(e),
    }
}

/// The effect of one poll segment: the state after all its commands,
/// the requests issued, the host's answers, and the first synchronous
/// and first asynchronous failures. The body stops with the first
/// synchronous failure if there is one — a synchronously refused
/// command hands the body a ready error that it meets at its very next
/// poll, before any request resolves — and otherwise with the first
/// asynchronous failure, delivered in resolution order.
pub struct SegEffect<V> {
    /// The records after the segment.
    pub w: Seq<(u64, V)>,
    /// The key generator after the segment.
    pub gen: u64,
    /// The cursor after the segment.
    pub cur: CursorCtx<V>,
    /// The requests issued, in order.
    pub issued: Seq<Cmd<V>>,
    /// The host's answers, one per command, in order.
    pub responses: Seq<Result<Response<V>, Error>>,
    /// The first synchronous refusal, if any.
    pub sync_err: Option<Error>,
    /// The first failed request, if any.
    pub async_err: Option<Error>,
}

/// The error a segment's body stops with, if any: the first synchronous
/// refusal, else the first failed request.
pub open spec fn seg_err<V>(sg: SegEffect<V>) -> Option<Error> {
    if sg.sync_err is Some {
        sg.sync_err
    } else {
        sg.async_err
    }
}

/// The semantics of one poll segment, command by command.
pub open spec fn seg_run<V: Copy>(
    mode: TransactionMode,
    w: Seq<(u64, V)>,
    gen: u64,
    cur: CursorCtx<V>,
    cmds: Seq<Cmd<V>>,
) -> SegEffect<V>
    decreases cmds.len(),
{
    if cmds.len() == 0 {
        SegEffect {
            w,
            gen,
            cur,
            issued: Seq::empty(),
            responses: Seq::empty(),
            sync_err: None,
            async_err: None,
        }
    } else {
        let fx = cmd_step(mode, w, gen, cur, cmds[0]);
        let rest = seg_run(mode, fx.w, fx.gen, fx.cur, cmds.drop_first());
        SegEffect {
            w: rest.w,
            gen: rest.gen,
            cur: rest.cur,
            issued: (if fx.issues {
                seq![cmds[0]]
            } else {
                Seq::empty()
            }) + rest.issued,
            responses: seq![fx.res] + rest.responses,
            sync_err: if fx.sync_fail {
                err_of(fx.res)
            } else {
                rest.sync_err
            },
            async_err: if !fx.sync_fail && fx.res is Err {
                err_of(fx.res)
            } else {
                rest.async_err
            },
        }
    }
}

/// How a body's sequence of steps ends.
pub enum StepsVerdict {
    /// Every step before a violation ran; the body stopped with this
    /// error, or with none.
    Completed(Option<Error>),
    /// The body suspended on something that is not a request of this
    /// transaction.
    Foreign,
    /// The body invoked a nested run.
    NestedRun,
}

/// The effect of a body's steps: the state when the body stops, the
/// host-observed traffic, and how it ended.
pub struct StepsEffect<V> {
    /// The records when the body stops.
    pub w: Seq<(u64, V)>,
    /// The key generator when the body stops.
    pub gen: u64,
    /// The cursor when the body stops.
    pub cur: CursorCtx<V>,
    /// The requests issued, in order.
    pub issued: Seq<Cmd<V>>,
    /// The host's answers, in order.
    pub responses: Seq<Result<Response<V>, Error>>,
    /// How the body ended.
    pub verdict: StepsVerdict,
}

/// The semantics of a body's steps, segment by segment: the body runs
/// until a segment fails, a violation occurs, or the steps run out.
pub open spec fn steps_run<V: Copy>(
    mode: TransactionMode,
    w: Seq<(u64, V)>,
    gen: u64,
    cur: CursorCtx<V>,
    steps: Seq<Step<V>>,
) -> StepsEffect<V>
    decreases steps.len(),
{
    if steps.len() == 0 {
        StepsEffect {
            w,
            gen,
            cur,
            issued: Seq::empty(),
            responses: Seq::empty(),
            verdict: StepsVerdict::Completed(None),
        }
    } else {
        match steps[0] {
            Step::Do(cmds) => {
                let sg = seg_run(mode, w, gen, cur, cmds@);
                if seg_err(sg) is Some {
                    StepsEffect {
                        w: sg.w,
                        gen: sg.gen,
                        cur: sg.cur,
                        issued: sg.issued,
                        responses: sg.responses,
                        verdict: StepsVerdict::Completed(seg_err(sg)),
                    }
                } else {
                    let rest = steps_run(mode, sg.w, sg.gen, sg.cur, steps.drop_first());
                    StepsEffect {
                        w: rest.w,
                        gen: rest.gen,
                        cur: rest.cur,
                        issued: sg.issued + rest.issued,
                        responses: sg.responses + rest.responses,
                        verdict: rest.verdict,
                    }
                }
            },
            Step::AwaitForeign => StepsEffect {
                w,
                gen,
                cur,
                issued: Seq::empty(),
                responses: Seq::empty(),
                verdict: StepsVerdict::Foreign,
            },
            Step::Nested => StepsEffect {
                w,
                gen,
                cur,
                issued: Seq::empty(),
                responses: Seq::empty(),
                verdict: StepsVerdict::NestedRun,
            },
        }
    }
}

/// The model of one whole run: the outcome, the store it leaves behind,
/// whether the host transaction was told to abort, and the
/// host-observed traffic.
pub struct RunModel<V> {
    /// The outcome.
    pub result: RunResult,
    /// The committed records after the run.
    pub store: Seq<(u64, V)>,
    /// The committed key generator after the run.
    pub gen: u64,
    /// Whether the host transaction was told to abort.
    pub aborted: bool,
    /// Every request issued, in order.
    pub issued: Seq<Cmd<V>>,
    /// The host's answer to every command that ran, in order.
    pub responses: Seq<Result<Response<V>, Error>>,
}

/// The semantics of one whole run: the body's steps run against a
/// working copy of the store; only a body that runs to its end with a
/// success commits the working copy, and every other ending aborts the
/// transaction and leaves the store as it was.
pub open spec fn spec_run<V: Copy>(
    mode: TransactionMode,
    s0: Seq<(u64, V)>,
    g0: u64,
    script: Script<V>,
) -> RunModel<V> {
    let fx = steps_run(mode, s0, g0, cursor_closed::<V>(), script.steps@);
    match fx.verdict {
        StepsVerdict::Completed(e) => match e {
            None => match script.body_result {
                Ok(rv) => RunModel {
                    result: RunResult::Completed(TransactionResult::Done(Ok(rv))),
                    store: fx.w,
                    gen: fx.gen,
                    aborted: false,
                    issued: fx.issued,
                    responses: fx.responses,
                },
                Err(u) => RunModel {
                    result: RunResult::Completed(
                        TransactionResult::Done(Err(Failure::User(u))),
                    ),
                    store: s0,
                    gen: g0,
                    aborted: true,
                    issued: fx.issued,
                    responses: fx.responses,
                },
            },
            Some(er) => RunModel {
                result: RunResult::Completed(TransactionResult::Done(Err(Failure::Op(er)))),
                store: s0,
                gen: g0,
                aborted: true,
                issued: fx.issued,
                responses: fx.responses,
            },
        },
        StepsVerdict::Foreign => RunModel {
            result: RunResult::Completed(TransactionResult::PolledForbiddenThing),
            store: s0,
            gen: g0,
            aborted: true,
            issued: fx.issued,
            responses: fx.responses,
        },
        StepsVerdict::NestedRun => RunModel {
            result: RunResult::NestingViolation,
            store: s0,
            gen: g0,
            aborted: true,
            issued: fx.issued,
            responses: fx.responses,
        },
    }
}

/// How a run stopped before its steps ran out.
#[derive(Clone, Copy)]
enum Halt {
    /// A segment's body error.
    Fail(Error),
    /// A suspension on something foreign.
    Foreign,
    /// A nested run.
    NestedCall,
}

/// The steps verdict a halt stands for.
spec fn halt_verdict(h: Halt) -> StepsVerdict {
    match h {
        Halt::Fail(e) => StepsVerdict::Completed(Some(e)),
        Halt::Foreign => StepsVerdict::Foreign,
        Halt::NestedCall => StepsVerdict::NestedRun,
    }
}

/// A steps effect with earlier traffic prepended.
spec fn with_traffic<V>(
    iss: Seq<Cmd<V>>,
    resp: Seq<Result<Response<V>, Error>>,
    fx: StepsEffect<V>,
) -> StepsEffect<V> {
    StepsEffect {
        w: fx.w,
        gen: fx.gen,
        cur: fx.cur,
        issued: iss + fx.issued,
        responses: resp + fx.responses,
        verdict: fx.verdict,
    }
}

/// A segment effect with earlier traffic and first failures folded in.
spec fn seg_acc<V>(
    iss: Seq<Cmd<V>>,
    resp: Seq<Result<Response<V>, Error>>,
    serr: Option<Error>,
    aerr: Option<Error>,
    rest: SegEffect<V>,
) -> SegEffect<V> {
    SegEffect {
        w: rest.w,
        gen: rest.gen,
        cur: rest.cur,
        issued: iss + rest.issued,
        responses: resp + rest.responses,
        sync_err: if serr is Some {
            serr
        } else {
            rest.sync_err
        },
        async_err: if aerr is Some {
            aerr
        } else {
            rest.async_err
        },
    }
}

/// Run a transaction body against the store, exactly as [`spec_run`]
/// defines it. The registry must be free: running a body inside another
/// body's run is the nesting violation that the `Nested` step models.
///
/// The body's steps run against a working copy of the store while the
/// driver's in-flight count is kept; the host transaction is told to
/// abort on a body error, on a forbidden suspension, or on a nested
/// run, and the working copy is committed only when the body ends with
/// a success. Whenever the outcome is not that success, the store is
/// left exactly as it was.
#[verifier::loop_isolation(false)]
#[verifier::rlimit(100)]
pub fn run_script<V: Copy>(
    reg: &mut Registry,
    store: &mut Store<V>,
    mode: TransactionMode,
    script: &Script<V>,
) -> (r: RunReport<V>)
    requires
        !old(reg).active,
        old(store).wf(),
    ensures
        !final(reg).active,
        final(store).wf(),
        ({
            let m = spec_run(mode, old(store)@, old(store).keygen(), *script);
            &&& r.result == m.result
            &&& r.aborted == m.aborted
            &&& final(store)@ == m.store
            &&& final(store).keygen() == m.gen
            &&& r.issued@ == m.issued
            &&& r.responses@ == m.responses
        }),
        !(r.result matches RunResult::Completed(TransactionResult::Done(Ok(_))))
            ==> final(store)@ == old(store)@ && final(store).keygen() == old(store).keygen(),
{
    let ghost s0 = store@;
    let ghost g0 = store.keygen();
    let ghost full = steps_run(mode, s0, g0, cursor_closed::<V>(), script.steps@);
    let _entered = reg.try_enter();
    let mut driver = Driver::new();
    let mut working = store.dup();
    let mut cur: CursorCtx<V> = CursorCtx { opened: false, buf: None, dir: CursorDirection::Next };
    let mut issued: Vec<Cmd<V>> = Vec::new();
    let mut responses: Vec<Result<Response<V>, Error>> = Vec::new();
    let mut aborted = false;
    driver.begin_poll();
    let n = script.steps.len();
    let mut i: usize = 0;
    let mut halt: Option<Halt> = None;
    proof {
        assert(cur == cursor_closed::<V>());
        assert(script.steps@.subrange(0, n as int) =~= script.steps@);
        assert(Seq::<Cmd<V>>::empty() + full.issued =~= full.issued);
        assert(Seq::<Result<Response<V>, Error>>::empty() + full.responses =~= full.responses);
    }
    while i < n && halt.is_none()
        invariant
            i <= n,
            reg.active,
            working.wf(),
            halt is None ==> !aborted,
            halt is None ==> driver.state is Running && driver.pending == 0,
            halt is None ==> full == with_traffic(
                issued@,
                responses@,
                steps_run(
                    mode,
                    working@,
                    working.keygen(),
                    cur,
                    script.steps@.subrange(i as int, n as int),
                ),
            ),
            halt matches Some(h) ==> aborted && full.w == working@ && full.gen
                == working.keygen() && full.issued == issued@ && full.responses == responses@
                && full.verdict == halt_verdict(h),
        decreases n - i,
    {
        let ghost pre_w = working@;
        let ghost pre_g = working.keygen();
        let ghost pre_cur = cur;
        let ghost rem = script.steps@.subrange(i as int, n as int);
        proof {
            assert(rem.len() > 0);
            assert(rem[0] == script.steps@[i as int]);
            assert(rem.drop_first() =~= script.steps@.subrange(i as int + 1, n as int));
        }
        match &script.steps[i] {
            Step::Do(cmds) => {
                let m = cmds.len();
                let ghost seg_full = seg_run(mode, pre_w, pre_g, pre_cur, cmds@);
                let mut j: usize = 0;
                let mut seg_iss: Vec<Cmd<V>> = Vec::new();
                let mut seg_resp: Vec<Result<Response<V>, Error>> = Vec::new();
                let mut sync_err: Option<Error> = None;
                let mut async_err: Option<Error> = None;
                proof {
                    assert(cmds@.subrange(0, m as int) =~= cmds@);
                    assert(Seq::<Cmd<V>>::empty() + seg_full.issued =~= seg_full.issued);
                    assert(Seq::<Result<Response<V>, Error>>::empty() + seg_full.responses
                        =~= seg_full.responses);
                }
                while j < m
                    invariant
                        j <= m,
                        m == cmds@.len(),
                        working.wf(),
                        driver.state is Running,
                        driver.pending == seg_iss@.len(),
                        seg_iss@.len() <= j,
                        seg_full == seg_acc(
                            seg_iss@,
                            seg_resp@,
                            sync_err,
                            async_err,
                            seg_run(
                                mode,
                                working@,
                                working.keygen(),
                                cur,
                                cmds@.subrange(j as int, m as int),
                            ),
                        ),
                    decreases m - j,
                {
                    let ghost cw = working@;
                    let ghost cg = working.keygen();
                    let ghost cc = cur;
                    let ghost rem_c = cmds@.subrange(j as int, m as int);
                    proof {
                        assert(rem_c.len() > 0);
                        assert(rem_c[0] == cmds@[j as int]);
                        assert(rem_c.drop_first() =~= cmds@.subrange(j as int + 1, m as int));
                    }
                    let (res, sfail, iss) = do_cmd(mode, &mut working, &mut cur, &cmds[j]);
                    let ghost fx = cmd_step(mode, cw, cg, cc, cmds@[j as int]);
                    let ghost rest = seg_run(
                        mode,
                        fx.w,
                        fx.gen,
                        fx.cur,
                        cmds@.subrange(j as int + 1, m as int),
                    );
                    let ghost pi = seg_iss@;
                    let ghost pr = seg_resp@;
                    if iss {
                        driver.register_operation();
                        seg_iss.push(cmds[j]);
                    }
                    seg_resp.push(res);
                    match res {
                        Err(e) => {
                            if sfail {
                                if sync_err.is_none() {
                                    sync_err = Some(e);
                                }
                            } else {
                                if async_err.is_none() {
                                    async_err = Some(e);
                                }
                            }
                        },
                        Ok(_) => {},
                    }
                    proof {
                        assert(seg_run(mode, cw, cg, cc, rem_c) == SegEffect {
                            w: rest.w,
                            gen: rest.gen,
                            cur: rest.cur,
                            issued: (if fx.issues {
                                seq![cmds@[j as int]]
                            } else {
                                Seq::<Cmd<V>>::empty()
                            }) + rest.issued,
                            responses: seq![fx.res] + rest.responses,
                            sync_err: if fx.sync_fail {
                                err_of(fx.res)
                            } else {
                                rest.sync_err
                            },
                            async_err: if !fx.sync_fail && fx.res is Err {
                                err_of(fx.res)
                            } else {
                                rest.async_err
                            },
                        });
                        assert(seg_iss@ =~= pi + (if fx.issues {
                            seq![cmds@[j as int]]
                        } else {
                            Seq::<Cmd<V>>::empty()
                        }));
                        assert(pi + ((if fx.issues {
                            seq![cmds@[j as int]]
                        } else {
                            Seq::<Cmd<V>>::empty()
                        }) + rest.issued) =~= seg_iss@ + rest.issued);
                        assert(pr + (seq![fx.res] + rest.responses) =~= seg_resp@
                            + rest.responses);
                    }
                    j = j + 1;
                }
                let ghost segi = seg_iss@;
                let ghost segr = seg_resp@;
                proof {
                    assert(cmds@.subrange(m as int, m as int) =~= Seq::<Cmd<V>>::empty());
                    assert(segi + Seq::<Cmd<V>>::empty() =~= segi);
                    assert(segr + Seq::<Result<Response<V>, Error>>::empty() =~= segr);
                    assert(seg_full.w == working@ && seg_full.gen == working.keygen()
                        && seg_full.cur == cur);
                    assert(seg_full.issued == segi && seg_full.responses == segr);
                    assert(seg_full.sync_err == sync_err && seg_full.async_err == async_err);
                }
                let ghost iss_before = issued@;
                let ghost resp_before = responses@;
                issued.append(&mut seg_iss);
                responses.append(&mut seg_resp);
                let failed: Option<Error> = match sync_err {
                    Some(e) => {
                        // at its next poll the body meets the ready error of the
                        // synchronously refused request, with the others still in
                        // flight, and stops with it
                        if driver.end_poll(PollBody::ReadyErr) == DriverAction::Abort {
                            aborted = true;
                        }
                        Some(e)
                    },
                    None => {
                        if driver.pending > 0 {
                            // the body suspended on its join; each resolution
                            // re-polls it
                            let _ = driver.end_poll(PollBody::Pending);
                            while driver.pending > 0
                                invariant
                                    driver.pending > 0 ==> driver.state is AwaitingOperation,
                                    driver.pending == 0 ==> driver.state is Running,
                                decreases driver.pending,
                            {
                                driver.operation_resolved();
                                driver.begin_poll();
                                if driver.pending > 0 {
                                    let _ = driver.end_poll(PollBody::Pending);
                                }
                            }
                        }
                        match async_err {
                            Some(e) => {
                                // the first failed request hands the body its
                                // error, and the body stops with it
                                if driver.end_poll(PollBody::ReadyErr) == DriverAction::Abort {
                                    aborted = true;
                                }
                                Some(e)
                            },
                            None => None,
                        }
                    },
                };
                proof {
                    let rest_steps = steps_run(
                        mode,
                        working@,
                        working.keygen(),
                        cur,
                        script.steps@.subrange(i as int + 1, n as int),
                    );
                    assert(script.steps@[i as int] matches Step::Do(cv) && cv@ == cmds@);
                    if seg_err(seg_full) is Some {
                        assert(steps_run(mode, pre_w, pre_g, pre_cur, rem) == StepsEffect {
                            w: seg_full.w,
                            gen: seg_full.gen,
                            cur: seg_full.cur,
                            issued: seg_full.issued,
                            responses: seg_full.responses,
                            verdict: StepsVerdict::Completed(seg_err(seg_full)),
                        });
                    } else {
                        assert(steps_run(mode, pre_w, pre_g, pre_cur, rem) == StepsEffect {
                            w: rest_steps.w,
                            gen: rest_steps.gen,
                            cur: rest_steps.cur,
                            issued: seg_full.issued + rest_steps.issued,
                            responses: seg_full.responses + rest_steps.responses,
                            verdict: rest_steps.verdict,
                        });
                        assert(iss_before + (segi + rest_steps.issued) =~= (iss_before + segi)
                            + rest_steps.issued);
                        assert(resp_before + (segr + rest_steps.responses) =~= (resp_before
                            + segr) + rest_steps.responses);
                    }
                    assert(iss_before + segi =~= issued@);
                    assert(resp_before + segr =~= responses@);
                }
                match failed {
                    Some(e) => {
                        halt = Some(Halt::Fail(e));
                    },
                    None => {},
                }
            },
            Step::AwaitForeign => {
                // the body suspended with nothing of its own in flight: the
                // transaction must abort before the host's auto-commit strikes
                if driver.end_poll(PollBody::Pending) == DriverAction::Abort {
                    aborted = true;
                }
                halt = Some(Halt::Foreign);
                proof {
                    assert(issued@ + Seq::<Cmd<V>>::empty() =~= issued@);
                    assert(responses@ + Seq::<Result<Response<V>, Error>>::empty()
                        =~= responses@);
                }
            },
            Step::Nested => {
                // a nested run finds the registry bound and is refused; both
                // transactions are told to abort
                let ok = reg.try_enter();
                if !ok {
                    aborted = true;
                    halt = Some(Halt::NestedCall);
                }
                proof {
                    assert(!ok);
                    assert(issued@ + Seq::<Cmd<V>>::empty() =~= issued@);
                    assert(responses@ + Seq::<Result<Response<V>, Error>>::empty()
                        =~= responses@);
                }
            },
        }
        i = i + 1;
    }
    if halt.is_none() {
        proof {
            assert(script.steps@.subrange(n as int, n as int) =~= Seq::<Step<V>>::empty());
            assert(issued@ + Seq::<Cmd<V>>::empty() =~= issued@);
            assert(responses@ + Seq::<Result<Response<V>, Error>>::empty() =~= responses@);
            assert(full.verdict == StepsVerdict::Completed(None::<Error>));
            assert(full.w == working@ && full.gen == working.keygen());
            assert(full.issued == issued@ && full.responses == responses@);
        }
    }
    let result: RunResult = match halt {
        None => match script.body_result {
            Ok(rv) => {
                let _ = driver.end_poll(PollBody::ReadyOk);
                let _ = driver.finish_delivery(true);
                *store = working;
                RunResult::Completed(TransactionResult::Done(Ok(rv)))
            },
            Err(u) => {
                // a logical error gives no implicit host rollback: the driver
                // must tell the transaction to abort
                if driver.end_poll(PollBody::ReadyErr) == DriverAction::Abort {
                    aborted = true;
                }
                RunResult::Completed(TransactionResult::Done(Err(Failure::User(u))))
            },
        },
        Some(Halt::Fail(e)) => RunResult::Completed(
            TransactionResult::Done(Err(Failure::Op(e))),
        ),
        Some(Halt::Foreign) => RunResult::Completed(TransactionResult::PolledForbiddenThing),
        Some(Halt::NestedCall) => RunResult::NestingViolation,
    };
    reg.exit();
    RunReport { result, aborted, issued, responses }
}

/// Whether a body awaits only requests of its own transaction: none of
/// its steps is a foreign suspension or a nested run.
pub open spec fn awaits_own_requests_only<V>(steps: Seq<Step<V>>) -> bool {
    forall|i: int| 0 <= i < steps.len() ==> steps[i] is Do
}

/// Whether a command is a host request, as opposed to a buffered cursor
/// read.
pub open spec fn is_request_cmd<V>(c: Cmd<V>) -> bool {
    !(c is CursorValue || c is CursorKey)
}

/// The host requests among a segment's commands, in order.
pub open spec fn requests_of_cmds<V>(cmds: Seq<Cmd<V>>) -> Seq<Cmd<V>>
    decreases cmds.len(),
{
    if cmds.len() == 0 {
        Seq::empty()
    } else {
        (if is_request_cmd(cmds[0]) {
            seq![cmds[0]]
        } else {
            Seq::<Cmd<V>>::empty()
        }) + requests_of_cmds(cmds.drop_first())
    }
}

/// The host requests a body's steps ask for, in order.
pub open spec fn requests_of_steps<V>(steps: Seq<Step<V>>) -> Seq<Cmd<V>>
    decreases steps.len(),
{
    if steps.len() == 0 {
        Seq::empty()
    } else {
        (match steps[0] {
            Step::Do(cmds) => requests_of_cmds(cmds@),
            _ => Seq::<Cmd<V>>::empty(),
        }) + requests_of_steps(steps.drop_first())
    }
}

/// In a segment none of whose commands fails, every host request is
/// issued: what the host observes is exactly what the body asked for.
proof fn lemma_seg_issues_requests<V: Copy>(
    mode: TransactionMode,
    w: Seq<(u64, V)>,
    gen: u64,
    cur: CursorCtx<V>,
    cmds: Seq<Cmd<V>>,
)
    ensures
        seg_err(seg_run(mode, w, gen, cur, cmds)) is None ==> seg_run(
            mode,
            w,
            gen,
            cur,
            cmds,
        ).issued == requests_of_cmds(cmds),
    decreases cmds.len(),
{
    if cmds.len() > 0 {
        let fx = cmd_step(mode, w, gen, cur, cmds[0]);
        lemma_seg_issues_requests(mode, fx.w, fx.gen, fx.cur, cmds.drop_first());
    }
}

/// A body that awaits only requests of its own transaction always runs
/// to a completion verdict — never to a violation — and when none of
/// its requests fails, the requests the host observes are exactly those
/// the body issued, in order.
pub proof fn lemma_own_awaits_complete<V: Copy>(
    mode: TransactionMode,
    w: Seq<(u64, V)>,
    gen: u64,
    cur: CursorCtx<V>,
    steps: Seq<Step<V>>,
)
    requires
        awaits_own_requests_only(steps),
    ensures
        steps_run(mode, w, gen, cur, steps).verdict matches StepsVerdict::Completed(_),
        steps_run(mode, w, gen, cur, steps).verdict == StepsVerdict::Completed(None::<Error>)
            ==> steps_run(mode, w, gen, cur, steps).issued == requests_of_steps(steps),
    decreases steps.len(),
{
    if steps.len() > 0 {
        match steps[0] {
            Step::Do(cmds) => {
                let sg = seg_run(mode, w, gen, cur, cmds@);
                lemma_seg_issues_requests(mode, w, gen, cur, cmds@);
                if seg_err(sg) is None {
                    let rest = steps.drop_first();
                    assert(awaits_own_requests_only(rest)) by {
                        assert(forall|i: int|
                            0 <= i < rest.len() ==> rest[i] == steps[i + 1]);
                    }
                    lemma_own_awaits_complete(mode, sg.w, sg.gen, sg.cur, rest);
                }
            },
            _ => {
                assert(steps[0] is Do);
            },
        }
    }
}

/// For every body that awaits only requests of its own transaction, the
/// run returns exactly the body's result — its own success or
/// application error when every request succeeds, the first request
/// failure otherwise — and when every request succeeds, the host
/// observes exactly the requests the body issued, in order.
pub proof fn lemma_faithful_run<V: Copy>(
    mode: TransactionMode,
    s0: Seq<(u64, V)>,
    g0: u64,
    script: Script<V>,
)
    requires
        awaits_own_requests_only(script.steps@),
    ensures
        ({
            let fx = steps_run(mode, s0, g0, cursor_closed::<V>(), script.steps@);
            let m = spec_run(mode, s0, g0, script);
            &&& m.result matches RunResult::Completed(TransactionResult::Done(_))
            &&& (fx.verdict == StepsVerdict::Completed(None::<Error>) ==> m.result
                == RunResult::Completed(
                TransactionResult::Done(
                    match script.body_result {
                        Ok(rv) => Ok(rv),
                        Err(u) => Err(Failure::User(u)),
                    },
                ),
            ) && m.issued == requests_of_steps(script.steps@))
            &&& (fx.verdict matches StepsVerdict::Completed(Some(e)) ==> m.result
                == RunResult::Completed(TransactionResult::Done(Err(Failure::Op(e)))))
        }),
{
    lemma_own_awaits_complete(mode, s0, g0, cursor_closed::<V>(), script.steps@);
}

/// A run whose outcome is anything but the body's success — a request
/// failure, an application error, a forbidden suspension, or a nested
/// run — aborts the host transaction and leaves the store exactly as it
/// was: none of the body's writes are observable afterwards.
pub proof fn lemma_failed_run_discards_writes<V: Copy>(
    mode: TransactionMode,
    s0: Seq<(u64, V)>,
    g0: u64,
    script: Script<V>,
)
    ensures
        ({
            let m = spec_run(mode, s0, g0, script);
            !(m.result matches RunResult::Completed(TransactionResult::Done(Ok(_))))
                ==> m.store == s0 && m.gen == g0 && m.aborted
        }),
{
}

/// A body that suspends on something that is not a request of its own
/// transaction — necessarily with zero requests in flight, since every
/// request of its own is awaited within its segment — ends in the
/// forbidden-suspension report, and the host transaction is aborted
/// with the store untouched.
pub proof fn lemma_foreign_suspension_aborts<V: Copy>(
    mode: TransactionMode,
    s0: Seq<(u64, V)>,
    g0: u64,
    script: Script<V>,
)
    requires
        steps_run(mode, s0, g0, cursor_closed::<V>(), script.steps@).verdict is Foreign,
    ensures
        ({
            let m = spec_run(mode, s0, g0, script);
            &&& m.result == RunResult::Completed(
                TransactionResult::<Result<u64, Failure>>::PolledForbiddenThing,
            )
            &&& m.aborted
            &&& m.store == s0
            &&& m.gen == g0
        }),
{
}

/// In a read-only transaction no command changes the records or the key
/// generator: every write request is refused synchronously, and reads
/// leave the state alone.
proof fn lemma_read_only_cmd_preserves<V: Copy>(
    w: Seq<(u64, V)>,
    gen: u64,
    cur: CursorCtx<V>,
    c: Cmd<V>,
)
    ensures
        cmd_step(TransactionMode::ReadOnly, w, gen, cur, c).w == w,
        cmd_step(TransactionMode::ReadOnly, w, gen, cur, c).gen == gen,
{
}

/// In a read-only transaction a whole segment leaves the records and the
/// key generator alone.
proof fn lemma_read_only_seg_preserves<V: Copy>(
    w: Seq<(u64, V)>,
    gen: u64,
    cur: CursorCtx<V>,
    cmds: Seq<Cmd<V>>,
)
    ensures
        seg_run(TransactionMode::ReadOnly, w, gen, cur, cmds).w == w,
        seg_run(TransactionMode::ReadOnly, w, gen, cur, cmds).gen == gen,
    decreases cmds.len(),
{
    if cmds.len() > 0 {
        let fx = cmd_step(TransactionMode::ReadOnly, w, gen, cur, cmds[0]);
        lemma_read_only_cmd_preserves(w, gen, cur, cmds[0]);
        lemma_read_only_seg_preserves(fx.w, fx.gen, fx.cur, cmds.drop_first());
    }
}

/// In a read-only transaction the body's steps leave the records and the
/// key generator alone.
proof fn lemma_read_only_steps_preserve<V: Copy>(
    w: Seq<(u64, V)>,
    gen: u64,
    cur: CursorCtx<V>,
    steps: Seq<Step<V>>,
)
    ensures
        steps_run(TransactionMode::ReadOnly, w, gen, cur, steps).w == w,
        steps_run(TransactionMode::ReadOnly, w, gen, cur, steps).gen == gen,
    decreases steps.len(),
{
    if steps.len() > 0 {
        match steps[0] {
            Step::Do(cmds) => {
                let sg = seg_run(TransactionMode::ReadOnly, w, gen, cur, cmds@);
                lemma_read_only_seg_preserves(w, gen, cur, cmds@);
                if seg_err(sg) is None {
                    lemma_read_only_steps_preserve(sg.w, sg.gen, sg.cur, steps.drop_first());
                }
            },
            _ => {},
        }
    }
}

/// A read-only run leaves the store exactly as it was, whatever its
/// body does and however it ends.
pub proof fn lemma_read_only_run_preserves_store<V: Copy>(
    s0: Seq<(u64, V)>,
    g0: u64,
    script: Script<V>,
)
    ensures
        spec_run(TransactionMode::ReadOnly, s0, g0, script).store == s0,
        spec_run(TransactionMode::ReadOnly, s0, g0, script).gen == g0,
{
    lemma_read_only_steps_preserve(s0, g0, cursor_closed::<V>(), script.steps@);
}

/// A body that invokes a nested run ends in the nesting violation, and
/// the host transaction is aborted with the store untouched.
pub proof fn lemma_nested_run_aborts<V: Copy>(
    mode: TransactionMode,
    s0: Seq<(u64, V)>,
    g0: u64,
    script: Script<V>,
)
    requires
        steps_run(mode, s0, g0, cursor_closed::<V>(), script.steps@).verdict is NestedRun,
    ensures
        ({
            let m = spec_run(mode, s0, g0, script);
            &&& m.result is NestingViolation
            &&& m.aborted
            &&& m.store == s0
            &&& m.gen == g0
        }),
{
}

} // verus!
