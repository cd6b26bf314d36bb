//! Work in a transaction, step by step: it is begun, the work is done once, and it is ended
//! once.

use vstd::prelude::*;

use crate::engine::session::Engine;
use crate::error::McpError;

verus! {

/// How the work in a transaction ended: with a value `T`, an error, or a panic that
/// carries `P`.
#[derive(Debug)]
pub enum WorkOutcome<T, P> {
    /// It succeeded.
    Succeeded(T),
    /// It returned an error.
    Failed(McpError),
    /// It panicked.
    Panicked(P),
}

/// What the caller of a transaction gets.
#[derive(Debug)]
pub enum TransactionResult<T, P> {
    /// A value or an error is returned to it.
    Returned(Result<T, McpError>),
    /// The panic of the work goes on.
    Raised(P),
}

/// What is to be done next for a transaction.
#[derive(Debug, Clone, Copy, PartialEq, Eq, Structural)]
pub enum TransactionAction {
    /// Begin it.
    Begin,
    /// Do the work.
    Work,
    /// Keep what was done.
    Commit,
    /// Undo what was done.
    Rollback,
    /// Nothing: it is over.
    Nothing,
}

/// What came of an action.
#[derive(Debug)]
pub enum TransactionEvent<T, P> {
    /// What came of beginning it.
    Began(Result<(), McpError>),
    /// What came of the work.
    Worked(WorkOutcome<T, P>),
    /// What came of keeping or undoing what was done.
    Ended(Result<(), McpError>),
}

/// How far a transaction is.
#[derive(Debug)]
pub enum TransactionPhase<T, P> {
    /// It is to be begun.
    Begin,
    /// Its work is to be done.
    Work,
    /// It is to be ended, as the outcome of the work asks for.
    End(WorkOutcome<T, P>),
    /// It is over.
    Done(TransactionResult<T, P>),
}

/// A transaction.
#[derive(Debug)]
pub struct Transaction<T, P> {
    /// How far it is.
    pub phase: TransactionPhase<T, P>,
}

/// What the caller gets, where the work ended with `work` and ending the transaction gave
/// `end`: what was done counts only where it could be kept, and where the work did not
/// succeed, its own error or panic counts, whatever came of undoing it.
pub open spec fn transaction_result<T, P>(
    work: WorkOutcome<T, P>,
    end: Result<(), McpError>,
) -> TransactionResult<T, P> {
    match work {
        WorkOutcome::Succeeded(value) => match end {
            Ok(_) => TransactionResult::Returned(Ok(value)),
            Err(e) => TransactionResult::Returned(Err(e)),
        },
        WorkOutcome::Failed(e) => TransactionResult::Returned(Err(e)),
        WorkOutcome::Panicked(payload) => TransactionResult::Raised(payload),
    }
}

impl<T, P> Transaction<T, P> {
    /// What is to be done next.
    pub open spec fn next_action(self) -> TransactionAction {
        match self.phase {
            TransactionPhase::Begin => TransactionAction::Begin,
            TransactionPhase::Work => TransactionAction::Work,
            TransactionPhase::End(WorkOutcome::Succeeded(_)) => TransactionAction::Commit,
            TransactionPhase::End(_) => TransactionAction::Rollback,
            TransactionPhase::Done(_) => TransactionAction::Nothing,
        }
    }

    /// The transaction after an event; one that was not waited for changes nothing.
    pub open spec fn after(self, event: TransactionEvent<T, P>) -> Transaction<T, P> {
        let phase = match (self.phase, event) {
            (TransactionPhase::Begin, TransactionEvent::Began(Ok(_))) => TransactionPhase::Work,
            (TransactionPhase::Begin, TransactionEvent::Began(Err(e))) => TransactionPhase::Done(
                TransactionResult::Returned(Err(e)),
            ),
            (TransactionPhase::Work, TransactionEvent::Worked(work)) => TransactionPhase::End(work),
            (TransactionPhase::End(work), TransactionEvent::Ended(end)) => TransactionPhase::Done(
                transaction_result(work, end),
            ),
            (phase, _) => phase,
        };
        Transaction { phase }
    }

    /// The transaction after events, in order.
    pub open spec fn after_all(self, events: Seq<TransactionEvent<T, P>>) -> Transaction<T, P>
        decreases events.len(),
    {
        if events.len() == 0 {
            self
        } else {
            self.after_all(events.drop_last()).after(events.last())
        }
    }

    /// How many steps are behind a transaction.
    pub open spec fn steps(self) -> nat {
        match self.phase {
            TransactionPhase::Begin => 0,
            TransactionPhase::Work => 1,
            TransactionPhase::End(_) => 2,
            TransactionPhase::Done(_) => 3,
        }
    }

    /// What is to be done next.
    pub fn action(&self) -> (r: TransactionAction)
        ensures
            r == self.next_action(),
    {
        match &self.phase {
            TransactionPhase::Begin => TransactionAction::Begin,
            TransactionPhase::Work => TransactionAction::Work,
            TransactionPhase::End(work) => match work {
                WorkOutcome::Succeeded(_) => TransactionAction::Commit,
                WorkOutcome::Failed(_) => TransactionAction::Rollback,
                WorkOutcome::Panicked(_) => TransactionAction::Rollback,
            },
            TransactionPhase::Done(_) => TransactionAction::Nothing,
        }
    }

    /// Takes note of what came of an action.
    pub fn observe(self, event: TransactionEvent<T, P>) -> (r: Transaction<T, P>)
        ensures
            r == self.after(event),
            self.phase is Begin ==> (event matches TransactionEvent::Began(Err(e)) ==> r.phase
                == TransactionPhase::<T, P>::Done(TransactionResult::Returned(Err(e)))),
            self.phase matches TransactionPhase::End(work) ==> (event matches TransactionEvent::Ended(
                end,
            ) ==> r.phase == TransactionPhase::Done(transaction_result(work, end))),
    {
        let phase = match (self.phase, event) {
            (TransactionPhase::Begin, TransactionEvent::Began(begun)) => match begun {
                Ok(_) => TransactionPhase::Work,
                Err(e) => TransactionPhase::Done(TransactionResult::Returned(Err(e))),
            },
            (TransactionPhase::Work, TransactionEvent::Worked(work)) => TransactionPhase::End(work),
            (TransactionPhase::End(work), TransactionEvent::Ended(end)) => {
                TransactionPhase::Done(
                    match work {
                        WorkOutcome::Succeeded(value) => match end {
                            Ok(_) => TransactionResult::Returned(Ok(value)),
                            Err(e) => TransactionResult::Returned(Err(e)),
                        },
                        WorkOutcome::Failed(e) => TransactionResult::Returned(Err(e)),
                        WorkOutcome::Panicked(payload) => TransactionResult::Raised(payload),
                    },
                )
            },
            (phase, _) => phase,
        };
        Transaction { phase }
    }

    /// What the caller gets, where the transaction is over; else the transaction as it is.
    pub fn finish(self) -> (r: Result<TransactionResult<T, P>, Transaction<T, P>>)
        ensures
            match self.phase {
                TransactionPhase::Done(result) => r == Ok::<
                    TransactionResult<T, P>,
                    Transaction<T, P>,
                >(result),
                _ => r == Err::<TransactionResult<T, P>, Transaction<T, P>>(self),
            },
    {
        match self.phase {
            TransactionPhase::Done(result) => Ok(result),
            phase => Err(Transaction { phase }),
        }
    }
}

impl Engine {
    /// Some work in a transaction, which is not begun yet.
    pub fn execute_in_transaction<T, P>(&self) -> (r: Transaction<T, P>)
        ensures
            r.phase is Begin,
            r.next_action() == TransactionAction::Begin,
    {
        Transaction { phase: TransactionPhase::Begin }
    }
}

/// A transaction that cannot be begun is over with that error: whatever happens later, its
/// work is never done, nothing is kept or undone, and the error stays.
pub proof fn law_failed_begin_is_returned<T, P>(
    t: Transaction<T, P>,
    e: McpError,
    later: Seq<TransactionEvent<T, P>>,
)
    requires
        t.phase is Begin,
    ensures
        t.after(TransactionEvent::Began(Err(e))).after_all(later).phase == TransactionPhase::<
            T,
            P,
        >::Done(TransactionResult::Returned(Err(e))),
        t.after(TransactionEvent::Began(Err(e))).after_all(later).next_action()
            == TransactionAction::Nothing,
    decreases later.len(),
{
    if later.len() > 0 {
        law_failed_begin_is_returned(t, e, later.drop_last());
    }
}

/// A transaction that was begun has its work done, and is then ended: what was done is kept
/// where the work succeeded, and undone where it failed or panicked. What the caller gets is
/// then fixed: the value of work that could be kept, the error of keeping it, the work's own
/// error, or the work's own panic.
pub proof fn law_begun_transaction_is_ended<T, P>(
    t: Transaction<T, P>,
    work: WorkOutcome<T, P>,
    end: Result<(), McpError>,
)
    requires
        t.phase is Begin,
    ensures
        ({
            let begun = t.after(TransactionEvent::Began(Ok(())));
            let worked = begun.after(TransactionEvent::Worked(work));
            let ended = worked.after(TransactionEvent::Ended(end));
            &&& begun.next_action() == TransactionAction::Work
            &&& worked.next_action() == (if work is Succeeded {
                TransactionAction::Commit
            } else {
                TransactionAction::Rollback
            })
            &&& ended.next_action() == TransactionAction::Nothing
            &&& ended.phase == TransactionPhase::Done(
                match (work, end) {
                    (WorkOutcome::Succeeded(value), Ok(_)) => TransactionResult::Returned(
                        Ok(value),
                    ),
                    (WorkOutcome::Succeeded(_), Err(e)) => TransactionResult::Returned(Err(e)),
                    (WorkOutcome::Failed(e), _) => TransactionResult::Returned(Err(e)),
                    (WorkOutcome::Panicked(payload), _) => TransactionResult::Raised(payload),
                },
            )
        }),
{
}

/// A transaction only goes forward: every event that changes it brings it to a later step, so
/// that nothing is begun, done or ended twice.
pub proof fn law_transaction_goes_forward<T, P>(
    t: Transaction<T, P>,
    event: TransactionEvent<T, P>,
)
    ensures
        t.after(event) == t || t.after(event).steps() > t.steps(),
        t.phase is Done ==> t.after(event) == t,
        t.after(event).phase is End && !(t.phase is End) ==> t.phase is Work,
{
}

/// An event that does not belong to the phase of a transaction changes nothing.
pub proof fn law_stray_events_change_nothing<T, P>(
    t: Transaction<T, P>,
    event: TransactionEvent<T, P>,
)
    ensures
        t.phase is Begin && !(event is Began) ==> t.after(event) == t,
        t.phase is Work && !(event is Worked) ==> t.after(event) == t,
        t.phase is End && !(event is Ended) ==> t.after(event) == t,
        t.phase is Done ==> t.after(event) == t,
        t.phase is Begin ==> t.next_action() == TransactionAction::Begin,
        t.phase is Work ==> t.next_action() == TransactionAction::Work,
        t.phase is Done ==> t.next_action() == TransactionAction::Nothing,
{
}

} // verus!
