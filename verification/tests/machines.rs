//! The driver, registry, scope verdict and result-slot state machines,
//! and the store model.

use indexed_db::{
    scope_exit_verdict, unwrap_done, Driver, DriverAction, DriverState, FakeFuture, Registry,
    ScopeVerdict, Store, TransactionResult,
};

#[test]
fn driver_relies_on_auto_commit_after_success() {
    let mut d = Driver::new();
    assert_eq!(d.state, DriverState::Idle);
    d.begin_poll();
    let a = d.end_poll(indexed_db::PollBody::ReadyOk);
    assert_eq!(a, DriverAction::Proceed);
    assert_eq!(d.state, DriverState::CompletedOk);
    let a = d.finish_delivery(true);
    assert_eq!(a, DriverAction::Proceed);
}

#[test]
fn driver_aborts_on_body_error() {
    let mut d = Driver::new();
    d.begin_poll();
    let a = d.end_poll(indexed_db::PollBody::ReadyErr);
    assert_eq!(a, DriverAction::Abort);
    assert_eq!(d.state, DriverState::CompletedErr);
}

#[test]
fn driver_aborts_on_suspension_with_nothing_in_flight() {
    let mut d = Driver::new();
    d.begin_poll();
    let a = d.end_poll(indexed_db::PollBody::Pending);
    assert_eq!(a, DriverAction::Abort);
    assert_eq!(d.state, DriverState::ForbiddenSuspension);
}

#[test]
fn driver_counts_joined_operations_without_underflow() {
    let mut d = Driver::new();
    d.begin_poll();
    d.register_operation();
    d.register_operation();
    assert_eq!(d.pending, 2);
    let a = d.end_poll(indexed_db::PollBody::Pending);
    assert_eq!(a, DriverAction::Proceed);
    assert_eq!(d.state, DriverState::AwaitingOperation);
    d.operation_resolved();
    assert_eq!(d.pending, 1);
    d.begin_poll();
    let a = d.end_poll(indexed_db::PollBody::Pending);
    assert_eq!(a, DriverAction::Proceed);
    d.operation_resolved();
    assert_eq!(d.pending, 0);
    d.begin_poll();
    let a = d.end_poll(indexed_db::PollBody::ReadyOk);
    assert_eq!(a, DriverAction::Proceed);
}

#[test]
fn driver_aborts_when_nobody_awaits_the_result() {
    let mut d = Driver::new();
    d.begin_poll();
    let _ = d.end_poll(indexed_db::PollBody::ReadyOk);
    let a = d.finish_delivery(false);
    assert_eq!(a, DriverAction::Abort);
}

#[test]
fn registry_binds_one_driver_at_a_time() {
    let mut reg = Registry::new();
    assert!(reg.try_enter());
    assert!(!reg.try_enter());
    reg.exit();
    assert!(reg.try_enter());
    reg.exit();
}

#[test]
fn scope_verdicts() {
    assert_eq!(scope_exit_verdict(true, None), ScopeVerdict::Clean);
    assert_eq!(scope_exit_verdict(true, Some(0)), ScopeVerdict::Clean);
    assert_eq!(scope_exit_verdict(true, Some(1)), ScopeVerdict::StateLeaked);
    assert_eq!(scope_exit_verdict(false, None), ScopeVerdict::CallbackLeaked);
    assert_eq!(
        scope_exit_verdict(false, Some(0)),
        ScopeVerdict::CallbackLeaked
    );
}

#[test]
fn result_slot_delivers_exactly_once() {
    let mut f: FakeFuture<u32> = FakeFuture::new(None);
    assert_eq!(f.poll(), None);
    f.resolve(5);
    assert_eq!(f.poll(), Some(5));
    assert_eq!(f.poll(), None);
}

#[test]
fn unwrap_done_hands_the_result_out() {
    let tr: TransactionResult<u32> = TransactionResult::Done(9);
    assert_eq!(unwrap_done(tr), 9);
}

#[test]
fn store_generates_fresh_keys_from_one() {
    let mut s: Store<&'static str> = Store::empty();
    assert_eq!(s.add_auto("a"), Ok(1));
    assert_eq!(s.add_auto("b"), Ok(2));
    assert_eq!(s.get(1), Some("a"));
    assert_eq!(s.get(2), Some("b"));
    assert_eq!(s.count(), 2);
}

#[test]
fn store_generator_moves_past_explicit_keys() {
    let mut s: Store<&'static str> = Store::empty();
    assert_eq!(s.add(10, "x"), Ok(()));
    assert_eq!(s.add_auto("y"), Ok(11));
    assert_eq!(s.add(10, "dup"), Err(indexed_db::Error::AlreadyExists));
    assert_eq!(s.get(10), Some("x"));
}

#[test]
fn store_orders_records_by_key() {
    let mut s: Store<&'static str> = Store::empty();
    s.put(5, "e");
    s.put(1, "a");
    s.put(3, "c");
    assert_eq!(s.first(true), Some((1, "a")));
    assert_eq!(s.first(false), Some((5, "e")));
    assert_eq!(s.next_above(1), Some((3, "c")));
    assert_eq!(s.next_below(5), Some((3, "c")));
    assert_eq!(s.next_at_or_above(3), Some((3, "c")));
    assert_eq!(s.next_at_or_below(2), Some((1, "a")));
    assert_eq!(s.next_above(5), None);
}

#[test]
fn store_delete_and_clear() {
    let mut s: Store<&'static str> = Store::empty();
    s.put(1, "a");
    s.put(2, "b");
    s.delete(1);
    assert_eq!(s.get(1), None);
    assert_eq!(s.count(), 1);
    s.delete(7);
    assert_eq!(s.count(), 1);
    s.clear();
    assert_eq!(s.count(), 0);
}

#[test]
fn store_generator_exhausts_at_the_largest_key() {
    let mut s: Store<&'static str> = Store::empty();
    s.put(u64::MAX, "top");
    assert_eq!(s.add_auto("more"), Err(indexed_db::Error::AlreadyExists));
    assert_eq!(s.count(), 1);
}

#[test]
fn store_bulk_reads_follow_key_order_and_limit() {
    let mut s: Store<&'static str> = Store::empty();
    s.put(5, "e");
    s.put(1, "a");
    s.put(3, "c");
    assert_eq!(s.get_all(None), vec!["a", "c", "e"]);
    assert_eq!(s.get_all(Some(2)), vec!["a", "c"]);
    assert_eq!(s.get_all(Some(0)), Vec::<&'static str>::new());
    assert_eq!(s.get_all_keys(None), vec![1, 3, 5]);
    assert_eq!(s.get_all_keys(Some(1)), vec![1]);
}

#[test]
fn store_copies_are_independent() {
    let mut s: Store<&'static str> = Store::empty();
    s.put(1, "a");
    let mut c = s.dup();
    c.put(2, "b");
    assert_eq!(s.count(), 1);
    assert_eq!(c.count(), 2);
}
