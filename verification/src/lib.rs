//! Core of an asynchronous binding to a host-provided transactional
//! key-value store whose transactions auto-commit as soon as the host
//! scheduler sees no pending request.
//!
//! The modules here hold the decision logic of that binding: the typed
//! error taxonomy and the translation of host exception names onto it,
//! the driver state machine that polls a transaction body and decides
//! commit versus abort, the registry that enforces a single active
//! driver, the scope-exit liveness verdict, key ranges, and an
//! executable model of a transaction running against a store, with the
//! protocol laws proved about it.

mod cursor;
mod driver;
mod engine;
mod error;
mod keyrange;
mod registry;
mod scope;
mod store;

pub use cursor::{advance_n, cursor_advance_target, cursor_closed, CursorCtx, CursorDirection};
pub use driver::{after_registers, after_resolves, lemma_pending_count_balances, spec_register,
    spec_resolve, unwrap_done, Driver, DriverAction, DriverState, FakeFuture, PollBody,
    TransactionResult};
pub use engine::{answered, awaits_own_requests_only, buf_key, cmd_step, cursor_live, err_of,
    is_request_cmd, is_write_cmd, lemma_failed_run_discards_writes, lemma_faithful_run,
    lemma_foreign_suspension_aborts, lemma_nested_run_aborts, lemma_own_awaits_complete,
    lemma_read_only_run_preserves_store,
    requests_of_cmds, requests_of_steps, run_script, seg_err, seg_run, spec_run, steps_run,
    sync_refused, Cmd, CmdEffect, Failure, Response, RunModel, RunReport, RunResult, Script,
    SegEffect, Step, StepsEffect, StepsVerdict, TransactionMode};
pub use error::{dom, dom_name, from_dom_exception, from_js_value, general_dom_error,
    general_dom_error_of, map_add_err, map_begin_transaction_err, map_clear_err, map_count_err,
    map_create_index_err, map_create_object_store_err, map_cursor_advance_err,
    map_cursor_advance_until_err, map_cursor_advance_until_primary_key_err, map_cursor_delete_err,
    map_cursor_update_err, map_delete_err, map_delete_object_store_err, map_get_err, map_index_err,
    map_key_err, map_object_store_err, map_open_cursor_err, Error, HostErrorName, HostException,
    Result};
pub use keyrange::{above_lower, below_upper, bounds_acceptable, key_in_range, make_key_range,
    range_contains, KeyBound, KeyRange};
pub use registry::Registry;
pub use scope::{scope_exit_verdict, ScopeVerdict};
pub use store::{contains_at, contains_key, entries_sorted, first_entry, first_in_range,
    first_keys, first_values,
    range_count, seek_ge, seek_gt, seek_le, seek_lt, spec_bump, spec_get, spec_put, spec_remove,
    spec_remove_range, Store};
