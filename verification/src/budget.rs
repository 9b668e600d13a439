//! A limit on how long a wait may go on.
//!
//! The drivers of this crate never give up on the hardware: as long as a
//! flag is reported raised they ask for it to be polled again. A caller that
//! would rather fail than hang counts the polls of each wait against a
//! budget and stops when the budget says so. What becomes of the peripheral
//! then is the caller's affair; a conversion or synchronization that was
//! under way is not cancelled by walking away from it.

use crate::protocol::Event;
use vstd::prelude::*;

verus! {

/// The error of a wait that has gone on for too long.
#[derive(Clone, Copy, Debug, PartialEq, Eq, Structural)]
pub struct TimedOut;

/// The state of a budget.
pub struct BudgetState {
    /// How many polls a single wait may take, if there is a limit.
    pub limit: Option<u32>,
    /// How many polls the wait under way has taken.
    pub spent: nat,
}

impl BudgetState {
    /// The state is one a budget can be in.
    pub open spec fn wf(self) -> bool {
        self.limit matches Some(limit) ==> self.spent <= limit
    }

    /// Whether `event` is one poll too many: it shows the hardware busy, and
    /// with it the wait under way has taken more polls than the limit
    /// allows.
    pub open spec fn exhausted_by(self, event: Event) -> bool {
        event.shows_busy() && (self.limit matches Some(limit) && self.spent >= limit)
    }

    /// The state after the events of `events`, in order.
    pub open spec fn charged_all(self, events: Seq<Event>) -> BudgetState
        decreases events.len(),
    {
        if events.len() == 0 {
            self
        } else {
            self.charged_all(events.drop_last()).charged(events.last())
        }
    }

    /// The state after `event`: where there is a limit, an event that shows
    /// the hardware busy is counted, unless it is one too many; any event
    /// that does not show the hardware busy ends the wait and clears the
    /// count.
    pub open spec fn charged(self, event: Event) -> BudgetState {
        if !event.shows_busy() {
            BudgetState { spent: 0, ..self }
        } else if self.limit is None || self.exhausted_by(event) {
            self
        } else {
            BudgetState { spent: self.spent + 1, ..self }
        }
    }
}

/// Counts the polls of a wait against a limit.
pub struct PollBudget {
    limit: Option<u32>,
    spent: u32,
}

impl View for PollBudget {
    type V = BudgetState;

    closed spec fn view(&self) -> BudgetState {
        BudgetState { limit: self.limit, spent: self.spent as nat }
    }
}

impl PollBudget {
    #[verifier::type_invariant]
    spec fn within_limit(self) -> bool {
        self.limit matches Some(limit) ==> self.spent <= limit
    }

    /// A budget that never runs out.
    pub fn unbounded() -> (budget: PollBudget)
        ensures
            budget@ == (BudgetState { limit: None, spent: 0 }),
    {
        PollBudget { limit: None, spent: 0 }
    }

    /// A budget that lets each wait take `limit` polls that find the
    /// hardware busy, and fails the wait on the next.
    pub fn bounded(limit: u32) -> (budget: PollBudget)
        ensures
            budget@ == (BudgetState { limit: Some(limit), spent: 0 }),
    {
        PollBudget { limit: Some(limit), spent: 0 }
    }

    /// Counts `event` against the budget. The wait has timed out exactly if
    /// the event shows the hardware busy and the polls before it had used
    /// the limit up; a budget without a limit never times out.
    pub fn charge(&mut self, event: Event) -> (verdict: Result<(), TimedOut>)
        ensures
            verdict is Err <==> old(self)@.exhausted_by(event),
            final(self)@ == old(self)@.charged(event),
            final(self)@.wf(),
            old(self)@.limit is None ==> verdict is Ok,
    {
        proof {
            use_type_invariant(&*self);
        }
        let busy = match event {
            Event::SyncFlag { busy } => busy,
            Event::ConversionFlag { converting } => converting,
            _ => false,
        };
        if !busy {
            self.spent = 0;
            Ok(())
        } else {
            match self.limit {
                Some(limit) => {
                    if self.spent >= limit {
                        Err(TimedOut)
                    } else {
                        self.spent = self.spent + 1;
                        Ok(())
                    }
                },
                None => Ok(()),
            }
        }
    }
}

/// The number of events at the end of `events` that show the hardware
/// busy, one after the other: the polls that the wait under way has taken.
pub open spec fn trailing_busy(events: Seq<Event>) -> nat
    decreases events.len(),
{
    if events.len() == 0 {
        0
    } else if events.last().shows_busy() {
        trailing_busy(events.drop_last()) + 1
    } else {
        0
    }
}

/// A budget with a limit counts the polls of the wait under way and nothing
/// else, and stops counting at the limit: the next event times the wait out
/// exactly if it shows the hardware busy after at least `limit` events in a
/// row have done so. A wait that takes fewer polls than that goes on as it
/// would without a budget.
pub proof fn lemma_budget_counts_the_wait(limit: u32, events: Seq<Event>, next: Event)
    ensures
        (BudgetState { limit: Some(limit), spent: 0 }).charged_all(events).wf(),
        (BudgetState { limit: Some(limit), spent: 0 }).charged_all(events).limit == Some(limit),
        (BudgetState { limit: Some(limit), spent: 0 }).charged_all(events).spent == if trailing_busy(
            events,
        ) <= limit {
            trailing_busy(events)
        } else {
            limit as nat
        },
        (BudgetState { limit: Some(limit), spent: 0 }).charged_all(events).exhausted_by(next)
            <==> next.shows_busy() && trailing_busy(events) >= limit,
    decreases events.len(),
{
    if events.len() > 0 {
        lemma_budget_counts_the_wait(limit, events.drop_last(), events.last());
    }
}

} // verus!
