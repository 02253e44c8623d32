//! Cursor positions over a store.
//!
//! A cursor walks the records of a store in key order, forwards or
//! backwards. The record it stands on is buffered at positioning time:
//! reads return the buffer, so a record deleted under the cursor stays
//! readable until the next move. Every move is a host request; the
//! functions here compute where a move lands.

use vstd::prelude::*;
use crate::store::{seek_gt, seek_lt, Store};

verus! {

/// The direction for a cursor
#[derive(Clone, Copy, Debug, PartialEq, Eq, Structural)]
pub enum CursorDirection {
    /// Advance one by one
    Next,
    /// Advance, skipping duplicate elements
    NextUnique,
    /// Go back, one by one
    Prev,
    /// Go back, skipping duplicate elements
    PrevUnique,
}

impl CursorDirection {
    /// Whether this direction walks towards higher keys.
    pub open spec fn spec_forward(&self) -> bool {
        self is Next || self is NextUnique
    }

    /// Whether this direction walks towards higher keys.
    pub fn forward(&self) -> (b: bool)
        ensures
            b == self.spec_forward(),
    {
        match self {
            CursorDirection::Next | CursorDirection::NextUnique => true,
            CursorDirection::Prev | CursorDirection::PrevUnique => false,
        }
    }

    /// Whether this direction skips records sharing a key with the one
    /// just visited.
    pub open spec fn spec_unique(&self) -> bool {
        self is NextUnique || self is PrevUnique
    }

    /// Whether this direction skips records sharing a key with the one
    /// just visited.
    pub fn unique(&self) -> (b: bool)
        ensures
            b == self.spec_unique(),
    {
        match self {
            CursorDirection::NextUnique | CursorDirection::PrevUnique => true,
            CursorDirection::Next | CursorDirection::Prev => false,
        }
    }
}

/// A cursor's position: whether one was opened, the record it stands on
/// (`None` once the walk is exhausted), and the direction of the walk.
pub struct CursorCtx<V> {
    /// Whether a cursor was opened in this transaction.
    pub opened: bool,
    /// The buffered record the cursor stands on, `None` once exhausted.
    pub buf: Option<(u64, V)>,
    /// The direction of the walk.
    pub dir: CursorDirection,
}

/// The position of a cursor before any was opened.
pub open spec fn cursor_closed<V>() -> CursorCtx<V> {
    CursorCtx { opened: false, buf: None, dir: CursorDirection::Next }
}

/// Where a cursor standing on key `k` lands after moving `n` records
/// onwards: the n-th record strictly beyond `k` in walk order, or `None`
/// if the walk exhausts first.
pub open spec fn advance_n<V>(w: Seq<(u64, V)>, k: u64, n: nat, forward: bool) -> Option<(u64, V)>
    decreases n,
{
    let nxt = if forward {
        seek_gt(w, k)
    } else {
        seek_lt(w, k)
    };
    if n <= 1 {
        nxt
    } else {
        match nxt {
            None => None,
            Some(e) => advance_n(w, e.0, (n - 1) as nat, forward),
        }
    }
}

/// Compute where a cursor standing on key `k` lands after moving `n`
/// records onwards through `store`.
pub fn cursor_advance_target<V: Copy>(store: &Store<V>, k: u64, n: u32, forward: bool) -> (r:
    Option<(u64, V)>)
    requires
        n >= 1,
    ensures
        r == advance_n(store@, k, n as nat, forward),
    decreases n,
{
    let nxt = if forward {
        store.next_above(k)
    } else {
        store.next_below(k)
    };
    if n == 1 {
        nxt
    } else {
        match nxt {
            None => None,
            Some(e) => cursor_advance_target(store, e.0, n - 1, forward),
        }
    }
}

} // verus!
