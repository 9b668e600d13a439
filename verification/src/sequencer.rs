//! The write-then-synchronize discipline.
//!
//! A [`RegisterSequencer`] hands out the writes of a program one at a time.
//! After each write it asks for the synchronization-busy flag to be polled,
//! again and again for as long as the flag is reported raised, and it hands
//! out the next write only once the flag has been reported clear. It never
//! gives up on a flag that stays raised.

use crate::protocol::{
    disciplined, lemma_discipline_extends, sync_outstanding, writes_of, Action, Event, Exchange,
    Status,
};
use crate::registers::RegisterWrite;
use vstd::prelude::*;

verus! {

/// The state of a sequencer: its program and how far it has come.
pub struct SequencerState {
    /// The writes to issue, in order.
    pub program: Seq<RegisterWrite>,
    /// How many writes of the program have been issued.
    pub issued: nat,
    /// The flag has not been reported clear since the last write, or, where
    /// nothing was issued yet, since the sequencer was made.
    pub awaiting_sync: bool,
}

impl SequencerState {
    /// The state is one a sequencer can be in.
    pub open spec fn wf(self) -> bool {
        self.issued <= self.program.len()
    }

    /// A sequencer that has `program` before it and starts with the first
    /// write.
    pub open spec fn fresh(program: Seq<RegisterWrite>) -> SequencerState {
        SequencerState { program, issued: 0, awaiting_sync: false }
    }

    /// A sequencer that has `program` before it and starts by waiting for
    /// the flag to be reported clear.
    pub open spec fn waiting(program: Seq<RegisterWrite>) -> SequencerState {
        SequencerState { program, issued: 0, awaiting_sync: true }
    }

    /// What the sequencer wants done next.
    pub open spec fn pending(self) -> Action {
        if self.awaiting_sync {
            Action::PollSync
        } else if self.issued < self.program.len() {
            Action::Write(self.program[self.issued as int])
        } else {
            Action::Idle
        }
    }

    /// Every write has been issued and synchronized.
    pub open spec fn complete(self) -> bool {
        !self.awaiting_sync && self.issued >= self.program.len()
    }

    /// The state after `event` has been reported. An event that does not
    /// answer the pending action changes nothing, and neither does a flag
    /// that is reported raised.
    pub open spec fn after(self, event: Event) -> SequencerState {
        match self.pending() {
            Action::Write(_) => if event is Written {
                SequencerState { issued: self.issued + 1, awaiting_sync: true, ..self }
            } else {
                self
            },
            Action::PollSync => if event == (Event::SyncFlag { busy: false }) {
                SequencerState { awaiting_sync: false, ..self }
            } else {
                self
            },
            _ => self,
        }
    }

    /// The number of rounds the sequencer needs to become complete on a
    /// peripheral that never reports the flag raised: two for every write
    /// that is left, and one more where a flag is awaited.
    pub open spec fn rounds_left(self) -> nat {
        (2 * (self.program.len() - self.issued) + if self.awaiting_sync {
            1int
        } else {
            0int
        }) as nat
    }

    /// The state after `steps` rounds on a peripheral that shows
    /// `hardware(n)` in round `n`: in each round the pending action is
    /// carried out and its outcome reported.
    pub open spec fn driven(self, hardware: spec_fn(nat) -> Status, steps: nat) -> SequencerState
        decreases steps,
    {
        if steps == 0 {
            self
        } else {
            let before = self.driven(hardware, (steps - 1) as nat);
            before.after(Event::outcome(before.pending(), hardware((steps - 1) as nat)))
        }
    }

    /// The exchanges of the first `steps` rounds on a peripheral that shows
    /// `hardware(n)` in round `n`. A round in which the sequencer is idle
    /// leaves no exchange.
    pub open spec fn exchanges(self, hardware: spec_fn(nat) -> Status, steps: nat) -> Seq<Exchange>
        decreases steps,
    {
        if steps == 0 {
            Seq::empty()
        } else {
            let before = self.driven(hardware, (steps - 1) as nat);
            let earlier = self.exchanges(hardware, (steps - 1) as nat);
            if before.pending() is Idle {
                earlier
            } else {
                earlier.push(
                    Exchange {
                        action: before.pending(),
                        event: Event::outcome(before.pending(), hardware((steps - 1) as nat)),
                    },
                )
            }
        }
    }
}

/// Issues the writes of a program one at a time, each followed by a wait for
/// the synchronization-busy flag to clear.
pub struct RegisterSequencer {
    program: Vec<RegisterWrite>,
    issued: usize,
    awaiting_sync: bool,
}

impl View for RegisterSequencer {
    type V = SequencerState;

    closed spec fn view(&self) -> SequencerState {
        SequencerState {
            program: self.program@,
            issued: self.issued as nat,
            awaiting_sync: self.awaiting_sync,
        }
    }
}

impl RegisterSequencer {
    #[verifier::type_invariant]
    spec fn within_program(self) -> bool {
        self.issued <= self.program.len()
    }

    /// A sequencer for `program` that starts with the first write.
    pub fn new(program: Vec<RegisterWrite>) -> (sequencer: RegisterSequencer)
        ensures
            sequencer@ == SequencerState::fresh(program@),
            sequencer@.wf(),
    {
        RegisterSequencer { program, issued: 0, awaiting_sync: false }
    }

    /// A sequencer for `program` that first waits for the flag to clear, for
    /// use where a write from before may still be synchronizing.
    pub fn after_sync(program: Vec<RegisterWrite>) -> (sequencer: RegisterSequencer)
        ensures
            sequencer@ == SequencerState::waiting(program@),
            sequencer@.wf(),
    {
        RegisterSequencer { program, issued: 0, awaiting_sync: true }
    }

    /// A sequencer that performs the single write `write` and then waits for
    /// the flag to clear.
    pub fn write_and_sync(write: RegisterWrite) -> (sequencer: RegisterSequencer)
        ensures
            sequencer@ == SequencerState::fresh(seq![write]),
            sequencer@.wf(),
    {
        let mut program: Vec<RegisterWrite> = Vec::new();
        program.push(write);
        assert(program@ =~= seq![write]);
        RegisterSequencer { program, issued: 0, awaiting_sync: false }
    }

    /// What is to be done on the peripheral next.
    pub fn pending(&self) -> (action: Action)
        ensures
            action == self@.pending(),
            self@.wf(),
    {
        proof {
            use_type_invariant(self);
        }
        if self.awaiting_sync {
            Action::PollSync
        } else if self.issued < self.program.len() {
            Action::Write(self.program[self.issued])
        } else {
            Action::Idle
        }
    }

    /// Takes note of what carrying out the pending action gave.
    pub fn observe(&mut self, event: Event)
        ensures
            final(self)@ == old(self)@.after(event),
            final(self)@.wf(),
    {
        proof {
            use_type_invariant(&*self);
        }
        if self.awaiting_sync {
            match event {
                Event::SyncFlag { busy } => {
                    if !busy {
                        self.awaiting_sync = false;
                    }
                },
                _ => {},
            }
        } else if self.issued < self.program.len() {
            match event {
                Event::Written => {
                    self.issued = self.issued + 1;
                    self.awaiting_sync = true;
                },
                _ => {},
            }
        }
    }

    /// Whether every write has been issued and synchronized.
    pub fn is_complete(&self) -> (complete: bool)
        ensures
            complete == self@.complete(),
            self@.wf(),
    {
        proof {
            use_type_invariant(self);
        }
        !self.awaiting_sync && self.issued >= self.program.len()
    }
}

/// A sequencer holds its place until it is told what it waits for: an event
/// that does not answer the pending action changes nothing, and neither
/// does a flag reported raised, however often it is reported.
pub proof fn lemma_sequencer_holds_its_place(state: SequencerState, event: Event)
    requires
        !event.answers(state.pending()) || event.shows_busy(),
    ensures
        state.after(event) == state,
{
}

/// What holds after every number of rounds, whatever the peripheral shows.
proof fn lemma_rounds(
    start: SequencerState,
    initially: bool,
    hardware: spec_fn(nat) -> Status,
    steps: nat,
)
    requires
        start.wf(),
        initially ==> start.awaiting_sync,
    ensures
        start.driven(hardware, steps).wf(),
        start.driven(hardware, steps).program == start.program,
        start.issued <= start.driven(hardware, steps).issued,
        sync_outstanding(initially, start.exchanges(hardware, steps)) ==> start.driven(
            hardware,
            steps,
        ).awaiting_sync,
        disciplined(initially, start.exchanges(hardware, steps)),
        writes_of(start.exchanges(hardware, steps)) == start.program.subrange(
            start.issued as int,
            start.driven(hardware, steps).issued as int,
        ),
    decreases steps,
{
    let trace = start.exchanges(hardware, steps);
    if steps > 0 {
        let before = start.driven(hardware, (steps - 1) as nat);
        let earlier = start.exchanges(hardware, (steps - 1) as nat);
        lemma_rounds(start, initially, hardware, (steps - 1) as nat);
        if !(before.pending() is Idle) {
            assert(trace.drop_last() == earlier);
            lemma_discipline_extends(initially, earlier, trace.last());
        }
    }
}

/// Whatever the peripheral shows and for however long, a sequencer has no
/// write issued while the synchronization-busy flag of an earlier write may
/// still be raised. Where the flag may be raised to begin with, this holds
/// of a sequencer that starts by waiting.
pub proof fn lemma_writes_wait_for_sync(
    start: SequencerState,
    initially: bool,
    hardware: spec_fn(nat) -> Status,
    steps: nat,
)
    requires
        start.wf(),
        initially ==> start.awaiting_sync,
    ensures
        disciplined(initially, start.exchanges(hardware, steps)),
        start.driven(hardware, steps).complete() ==> !sync_outstanding(
            initially,
            start.exchanges(hardware, steps),
        ),
{
    lemma_rounds(start, initially, hardware, steps);
}

/// The writes a sequencer has issued are the writes of its program, in
/// order, with none left out and none repeated; once the sequencer is
/// complete they are the whole of what was left of the program.
pub proof fn lemma_writes_follow_program(
    start: SequencerState,
    hardware: spec_fn(nat) -> Status,
    steps: nat,
)
    requires
        start.wf(),
    ensures
        start.driven(hardware, steps).wf(),
        start.driven(hardware, steps).program == start.program,
        start.issued <= start.driven(hardware, steps).issued,
        writes_of(start.exchanges(hardware, steps)) == start.program.subrange(
            start.issued as int,
            start.driven(hardware, steps).issued as int,
        ),
        start.driven(hardware, steps).complete() ==> writes_of(start.exchanges(hardware, steps))
            == start.program.skip(start.issued as int),
{
    lemma_rounds(start, false, hardware, steps);
}

/// On a peripheral that never reports the flag raised, every round brings a
/// sequencer one round closer to completion: it is complete after
/// `rounds_left` rounds and not before.
pub proof fn lemma_sequencer_finishes_unhindered(
    start: SequencerState,
    hardware: spec_fn(nat) -> Status,
    steps: nat,
)
    requires
        start.wf(),
        forall|n: nat| !(#[trigger] hardware(n)).sync_busy,
    ensures
        start.driven(hardware, steps).wf(),
        start.driven(hardware, steps).rounds_left() == if steps <= start.rounds_left() {
            start.rounds_left() - steps
        } else {
            0
        },
        start.driven(hardware, steps).complete() <==> steps >= start.rounds_left(),
    decreases steps,
{
    if steps > 0 {
        lemma_sequencer_finishes_unhindered(start, hardware, (steps - 1) as nat);
        assert(!hardware((steps - 1) as nat).sync_busy);
    }
}

} // verus!
