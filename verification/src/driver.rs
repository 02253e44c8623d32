//! The transaction driver: the state machine that polls a transaction
//! body and decides the transaction's fate.
//!
//! The host auto-commits a transaction as soon as its scheduler sees no
//! pending request on it. The body of a transaction must therefore never
//! suspend on anything but a request of its own transaction: such a
//! suspension would hand control back to the host with nothing pending,
//! and the transaction would commit under the body's feet. The driver
//! tracks the number of requests in flight and, each time the body is
//! polled, decides from the poll result and that count whether to keep
//! waiting, to rely on the host's auto-commit, or to abort.

use vstd::prelude::*;

verus! {

/// What a finished transaction run reports: either the body suspended on
/// something that was not a request of its own transaction, or it ran to
/// its end with a result.
#[derive(Debug)]
pub enum TransactionResult<R> {
    /// The body suspended with no request of its own in flight.
    PolledForbiddenThing,
    /// The body ran to its end and returned this result.
    Done(R),
}

/// Take the result out of a [`TransactionResult`] that is known to hold
/// one. A forbidden suspension is fatal and must be handled before this
/// point; it is excluded by `requires`.
pub fn unwrap_done<R>(tr: TransactionResult<R>) -> (r: R)
    requires
        tr is Done,
    ensures
        tr == TransactionResult::Done(r),
{
    match tr {
        TransactionResult::Done(r) => r,
        TransactionResult::PolledForbiddenThing => vstd::pervasive::unreached(),
    }
}

/// Where the driver stands in a transaction's life.
#[derive(Clone, Copy, Debug, PartialEq, Eq, Structural)]
pub enum DriverState {
    /// The body has never been polled.
    Idle,
    /// The body is being polled right now.
    Running,
    /// The body suspended with at least one request in flight.
    AwaitingOperation,
    /// The body returned a success; the host's auto-commit is relied on.
    CompletedOk,
    /// The body returned an error; the transaction was told to abort.
    CompletedErr,
    /// The body suspended with no request in flight; the transaction was
    /// told to abort, and no continuation is defined.
    ForbiddenSuspension,
}

/// What polling the body returned, as the driver sees it.
#[derive(Clone, Copy, Debug, PartialEq, Eq, Structural)]
pub enum PollBody {
    /// The body suspended.
    Pending,
    /// The body ran to its end with a success.
    ReadyOk,
    /// The body ran to its end with an error.
    ReadyErr,
}

/// What the caller must do to the host transaction after a driver step.
#[derive(Clone, Copy, Debug, PartialEq, Eq, Structural)]
pub enum DriverAction {
    /// Nothing: keep going, or rely on the host's auto-commit.
    Proceed,
    /// Tell the host transaction to abort.
    Abort,
}

/// The driver of one transaction: its state, and the number of requests
/// currently in flight.
#[derive(Clone, Copy, Debug, PartialEq, Eq, Structural)]
pub struct Driver {
    /// Where the driver stands.
    pub state: DriverState,
    /// How many requests of this transaction are in flight.
    pub pending: usize,
}

/// A driver after one more request was registered.
pub open spec fn spec_register(d: Driver) -> Driver {
    Driver { state: d.state, pending: (d.pending + 1) as usize }
}

/// A driver after one in-flight request resolved.
pub open spec fn spec_resolve(d: Driver) -> Driver {
    Driver { state: d.state, pending: (d.pending - 1) as usize }
}

impl Driver {
    /// A fresh driver: never polled, nothing in flight.
    pub fn new() -> (d: Driver)
        ensures
            d == (Driver { state: DriverState::Idle, pending: 0 }),
    {
        Driver { state: DriverState::Idle, pending: 0 }
    }

    /// Enter a poll of the body. Only a body that was never polled, or
    /// that suspended on its own requests, may be polled again.
    pub fn begin_poll(&mut self)
        requires
            old(self).state is Idle || old(self).state is AwaitingOperation,
        ensures
            final(self).state is Running,
            final(self).pending == old(self).pending,
    {
        self.state = DriverState::Running;
    }

    /// Record that the body, while being polled, issued one more request
    /// against its transaction.
    pub fn register_operation(&mut self)
        requires
            old(self).state is Running,
            old(self).pending < usize::MAX,
        ensures
            *final(self) == spec_register(*old(self)),
    {
        self.pending = self.pending + 1;
    }

    /// Record that one in-flight request resolved, between two polls of
    /// the body. The count cannot underflow: a resolution can only be
    /// reported while something is in flight.
    pub fn operation_resolved(&mut self)
        requires
            old(self).state is AwaitingOperation,
            old(self).pending > 0,
        ensures
            *final(self) == spec_resolve(*old(self)),
    {
        self.pending = self.pending - 1;
    }

    /// Leave a poll of the body, deciding from the poll result and the
    /// in-flight count what happens to the transaction:
    /// - a success relies on the host's auto-commit, with no action;
    /// - an error from the body gives no implicit host rollback, so the
    ///   transaction must be told to abort;
    /// - a suspension with requests in flight is the one legal wait;
    /// - a suspension with nothing in flight means the body awaited
    ///   something outside its transaction, and the transaction must be
    ///   aborted before the host's auto-commit can strike.
    pub fn end_poll(&mut self, poll: PollBody) -> (a: DriverAction)
        requires
            old(self).state is Running,
        ensures
            final(self).pending == old(self).pending,
            poll is ReadyOk ==> final(self).state is CompletedOk && a is Proceed,
            poll is ReadyErr ==> final(self).state is CompletedErr && a is Abort,
            poll is Pending && old(self).pending > 0 ==> final(self).state is AwaitingOperation
                && a is Proceed,
            poll is Pending && old(self).pending == 0 ==> final(self).state
                is ForbiddenSuspension && a is Abort,
    {
        match poll {
            PollBody::ReadyOk => {
                self.state = DriverState::CompletedOk;
                DriverAction::Proceed
            },
            PollBody::ReadyErr => {
                self.state = DriverState::CompletedErr;
                DriverAction::Abort
            },
            PollBody::Pending => {
                if self.pending > 0 {
                    self.state = DriverState::AwaitingOperation;
                    DriverAction::Proceed
                } else {
                    self.state = DriverState::ForbiddenSuspension;
                    DriverAction::Abort
                }
            },
        }
    }

    /// After a successful body, the run's own caller must still be
    /// there to receive the result; if it dropped out, the host cannot
    /// otherwise learn that the transaction was abandoned, so it must be
    /// told to abort.
    pub fn finish_delivery(&mut self, receiver_alive: bool) -> (a: DriverAction)
        requires
            old(self).state is CompletedOk,
        ensures
            *final(self) == *old(self),
            a is Abort <==> !receiver_alive,
    {
        if receiver_alive {
            DriverAction::Proceed
        } else {
            DriverAction::Abort
        }
    }
}

/// A driver after `k` more requests were registered.
pub open spec fn after_registers(d: Driver, k: nat) -> Driver
    decreases k,
{
    if k == 0 {
        d
    } else {
        spec_register(after_registers(d, (k - 1) as nat))
    }
}

/// A driver after `j` in-flight requests resolved.
pub open spec fn after_resolves(d: Driver, j: nat) -> Driver
    decreases j,
{
    if j == 0 {
        d
    } else {
        spec_resolve(after_resolves(d, (j - 1) as nat))
    }
}

/// Requests issued together all register before any of them resolves,
/// and the in-flight count balances exactly: after `k` registrations and
/// `j` resolutions it reads `k - j` more than before, so it stays above
/// zero until the last resolution and never underflows.
pub proof fn lemma_pending_count_balances(d: Driver, k: nat, j: nat)
    requires
        d.pending + k <= usize::MAX,
        j <= k,
    ensures
        after_registers(d, k).pending == d.pending + k,
        after_resolves(after_registers(d, k), j).pending == d.pending + k - j,
        j < k ==> after_resolves(after_registers(d, k), j).pending > 0,
    decreases k + j,
{
    if k > 0 && j == 0 {
        lemma_pending_count_balances(d, (k - 1) as nat, 0);
    } else if j > 0 {
        lemma_pending_count_balances(d, k, (j - 1) as nat);
    }
}

/// The single-resolution slot behind one in-flight request: it is filled
/// at most once by the host's notification, and polling it takes the
/// result out, so a result is delivered exactly once.
pub struct FakeFuture<T> {
    /// The slot the notification writes and the poll takes.
    pub watching: Option<T>,
}

impl<T> FakeFuture<T> {
    /// Wrap a result slot, empty until the host's notification fires.
    pub fn new(watching: Option<T>) -> (r: FakeFuture<T>)
        ensures
            r.watching == watching,
    {
        FakeFuture { watching }
    }

    /// Deliver the request's single result. A second delivery is a
    /// protocol violation and is excluded by `requires`.
    pub fn resolve(&mut self, value: T)
        requires
            old(self).watching is None,
        ensures
            final(self).watching == Some(value),
    {
        self.watching = Some(value);
    }

    /// Poll the slot: take the result if it was delivered, else report a
    /// suspension. A delivered result is handed out exactly once.
    pub fn poll(&mut self) -> (r: Option<T>)
        ensures
            r == old(self).watching,
            final(self).watching is None,
    {
        self.watching.take()
    }
}

} // verus!
