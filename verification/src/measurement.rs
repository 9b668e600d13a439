//! One touch conversion: program the peripheral, start the conversion, wait
//! for it to complete, read the raw count and scale it.

use crate::configurator::{SamplingMode, TouchParams};
use crate::protocol::{
    disciplined, lemma_discipline_extends, sync_outstanding, writes_of, Action, Event, Exchange,
    Status,
};
use crate::reading::Reading;
use crate::registers::{lemma_programmed_prefix, Channel, PeripheralRegisterSet, RegisterWrite};
use crate::sequencer::{RegisterSequencer, SequencerState};
use vstd::prelude::*;

verus! {

/// The writes made once, before the first sample: in steady state the
/// selection of the channel, in defensive mode none.
pub open spec fn setup_sequence(mode: SamplingMode, channel: Channel) -> Seq<RegisterWrite> {
    match mode {
        SamplingMode::SteadyState => seq![RegisterWrite::SelectChannel(channel)],
        SamplingMode::Defensive => Seq::empty(),
    }
}

/// The writes made for each sample. In defensive mode: select the channel,
/// set resistor, oversampling and frequency control, rewrite both
/// capacitances and the burst mode, and start the conversion. In steady
/// state: start the conversion.
pub open spec fn sample_sequence(mode: SamplingMode, params: TouchParams, channel: Channel) -> Seq<
    RegisterWrite,
> {
    match mode {
        SamplingMode::SteadyState => seq![RegisterWrite::StartConversion],
        SamplingMode::Defensive => seq![
            RegisterWrite::SelectChannel(channel),
            RegisterWrite::SeriesResistor(params.resistor),
            RegisterWrite::Oversample(params.oversampling),
            RegisterWrite::FrequencyControl {
                spread: params.frequency_spread,
                delay: params.sample_delay,
            },
            RegisterWrite::CompareCapacitance(params.compare_capacitance),
            RegisterWrite::InternalCapacitance(params.internal_capacitance),
            RegisterWrite::BurstMode(params.burst_mode),
            RegisterWrite::StartConversion,
        ],
    }
}

/// Where a conversion request stands.
#[derive(Clone, Copy, Debug, PartialEq, Eq, Structural)]
pub enum ConversionPhase {
    /// The writes of the sample are being issued.
    Configuring,
    /// The conversion was started; its completion is awaited.
    Converting,
    /// The conversion is complete; the synchronization-busy flag is awaited.
    Settling,
    /// The raw count is about to be read.
    Fetching,
    /// The raw count was read.
    Complete(u16),
    /// No raw count could be obtained.
    Failed,
}

/// The state of a conversion request.
pub struct ConversionState {
    /// The channel the request samples.
    pub channel: Channel,
    /// The sequencer that issues the writes of the sample.
    pub sequencer: SequencerState,
    /// Where the request stands.
    pub phase: ConversionPhase,
}

impl ConversionState {
    /// The state is one a request can be in.
    pub open spec fn wf(self) -> bool {
        &&& self.sequencer.wf()
        &&& self.phase is Configuring <==> !self.sequencer.complete()
    }

    /// A request that has the writes of `program` before it.
    pub open spec fn fresh(channel: Channel, program: Seq<RegisterWrite>) -> ConversionState {
        ConversionState {
            channel,
            sequencer: SequencerState::fresh(program),
            phase: ConversionPhase::Configuring,
        }
    }

    /// What the request wants done next.
    pub open spec fn pending(self) -> Action {
        match self.phase {
            ConversionPhase::Configuring => self.sequencer.pending(),
            ConversionPhase::Converting => Action::PollConversion,
            ConversionPhase::Settling => Action::PollSync,
            ConversionPhase::Fetching => Action::ReadResult,
            ConversionPhase::Complete(_) => Action::Idle,
            ConversionPhase::Failed => Action::Idle,
        }
    }

    /// The request has come to its end, with a raw count or without.
    pub open spec fn finished(self) -> bool {
        self.phase is Complete || self.phase is Failed
    }

    /// The state after `event` has been reported. An event that does not
    /// answer the pending action changes nothing, and neither does a flag
    /// that is reported raised or a conversion reported in progress.
    pub open spec fn after(self, event: Event) -> ConversionState {
        match self.phase {
            ConversionPhase::Configuring => {
                let sequencer = self.sequencer.after(event);
                ConversionState {
                    sequencer,
                    phase: if sequencer.complete() {
                        ConversionPhase::Converting
                    } else {
                        ConversionPhase::Configuring
                    },
                    ..self
                }
            },
            ConversionPhase::Converting => if event == (Event::ConversionFlag { converting: false }) {
                ConversionState { phase: ConversionPhase::Settling, ..self }
            } else {
                self
            },
            ConversionPhase::Settling => if event == (Event::SyncFlag { busy: false }) {
                ConversionState { phase: ConversionPhase::Fetching, ..self }
            } else {
                self
            },
            ConversionPhase::Fetching => match event {
                Event::RawResult { raw: Some(raw) } => ConversionState {
                    phase: ConversionPhase::Complete(raw),
                    ..self
                },
                Event::RawResult { raw: None } => ConversionState {
                    phase: ConversionPhase::Failed,
                    ..self
                },
                _ => self,
            },
            ConversionPhase::Complete(_) => self,
            ConversionPhase::Failed => self,
        }
    }

    /// The reading the request amounts to: the raw count divided by four
    /// where the request is complete, the invalid marker in every other
    /// phase.
    pub open spec fn reading(self) -> Reading {
        match self.phase {
            ConversionPhase::Complete(raw) => Reading::scaled(raw),
            _ => Reading::invalid_marker(),
        }
    }

    /// The number of rounds the request needs to come to its end on a
    /// peripheral that never makes it wait: those of its sequencer, then one
    /// each to see the conversion complete, to see the flag clear and to
    /// read the result.
    pub open spec fn rounds_left(self) -> nat {
        match self.phase {
            ConversionPhase::Configuring => self.sequencer.rounds_left() + 3,
            ConversionPhase::Converting => 3,
            ConversionPhase::Settling => 2,
            ConversionPhase::Fetching => 1,
            ConversionPhase::Complete(_) => 0,
            ConversionPhase::Failed => 0,
        }
    }

    /// The state after `steps` rounds on a peripheral that shows
    /// `hardware(n)` in round `n`: in each round the pending action is
    /// carried out and its outcome reported.
    pub open spec fn driven(self, hardware: spec_fn(nat) -> Status, steps: nat) -> ConversionState
        decreases steps,
    {
        if steps == 0 {
            self
        } else {
            let before = self.driven(hardware, (steps - 1) as nat);
            before.after(Event::outcome(before.pending(), hardware((steps - 1) as nat)))
        }
    }

    /// The exchanges of the first `steps` rounds on a peripheral that shows
    /// `hardware(n)` in round `n`. A round in which the request is idle
    /// leaves no exchange.
    pub open spec fn exchanges(self, hardware: spec_fn(nat) -> Status, steps: nat) -> Seq<Exchange>
        decreases steps,
    {
        if steps == 0 {
            Seq::empty()
        } else {
            let before = self.driven(hardware, (steps - 1) as nat);
            let earlier = self.exchanges(hardware, (steps - 1) as nat);
            if before.pending() is Idle {
                earlier
            } else {
                earlier.push(
                    Exchange {
                        action: before.pending(),
                        event: Event::outcome(before.pending(), hardware((steps - 1) as nat)),
                    },
                )
            }
        }
    }
}

/// A unit of work for one channel: one conversion, from the first write of
/// the sample to the raw count.
pub struct ConversionRequest {
    channel: Channel,
    sequencer: RegisterSequencer,
    phase: ConversionPhase,
}

impl View for ConversionRequest {
    type V = ConversionState;

    closed spec fn view(&self) -> ConversionState {
        ConversionState { channel: self.channel, sequencer: self.sequencer@, phase: self.phase }
    }
}

impl ConversionRequest {
    /// The channel the request samples.
    pub fn channel(&self) -> (channel: Channel)
        ensures
            channel == self@.channel,
    {
        self.channel
    }

    /// Where the request stands.
    pub fn phase(&self) -> (phase: ConversionPhase)
        ensures
            phase == self@.phase,
    {
        self.phase
    }

    /// What is to be done on the peripheral next.
    pub fn pending(&self) -> (action: Action)
        ensures
            action == self@.pending(),
    {
        match self.phase {
            ConversionPhase::Configuring => self.sequencer.pending(),
            ConversionPhase::Converting => Action::PollConversion,
            ConversionPhase::Settling => Action::PollSync,
            ConversionPhase::Fetching => Action::ReadResult,
            ConversionPhase::Complete(_) => Action::Idle,
            ConversionPhase::Failed => Action::Idle,
        }
    }

    /// Takes note of what carrying out the pending action gave.
    pub fn observe(&mut self, event: Event)
        ensures
            final(self)@ == old(self)@.after(event),
    {
        match self.phase {
            ConversionPhase::Configuring => {
                self.sequencer.observe(event);
                if self.sequencer.is_complete() {
                    self.phase = ConversionPhase::Converting;
                }
            },
            ConversionPhase::Converting => {
                match event {
                    Event::ConversionFlag { converting } => {
                        if !converting {
                            self.phase = ConversionPhase::Settling;
                        }
                    },
                    _ => {},
                }
            },
            ConversionPhase::Settling => {
                match event {
                    Event::SyncFlag { busy } => {
                        if !busy {
                            self.phase = ConversionPhase::Fetching;
                        }
                    },
                    _ => {},
                }
            },
            ConversionPhase::Fetching => {
                match event {
                    Event::RawResult { raw: Some(raw) } => {
                        self.phase = ConversionPhase::Complete(raw);
                    },
                    Event::RawResult { raw: None } => {
                        self.phase = ConversionPhase::Failed;
                    },
                    _ => {},
                }
            },
            ConversionPhase::Complete(_) => {},
            ConversionPhase::Failed => {},
        }
    }

    /// Whether the request has come to its end, with a raw count or without.
    pub fn is_finished(&self) -> (finished: bool)
        ensures
            finished == self@.finished(),
    {
        match self.phase {
            ConversionPhase::Complete(_) => true,
            ConversionPhase::Failed => true,
            _ => false,
        }
    }

    /// Consumes the request and gives its reading: the raw count divided by
    /// four where the request is complete, and the invalid marker where no
    /// count was obtained, be it that the read gave none or that the request
    /// had not come that far.
    pub fn finish(self) -> (reading: Reading)
        ensures
            reading == self@.reading(),
            self@.phase matches ConversionPhase::Complete(raw) ==> reading.value == raw / 4,
            !(self@.phase is Complete) ==> reading.value == 0xAAAA,
    {
        match self.phase {
            ConversionPhase::Complete(raw) => Reading::from_raw(raw),
            _ => Reading::invalid(),
        }
    }
}

/// Drives conversions with a fixed set of parameters.
pub struct MeasurementEngine {
    params: TouchParams,
    mode: SamplingMode,
}

impl MeasurementEngine {
    /// The parameters the engine programs.
    pub closed spec fn params(self) -> TouchParams {
        self.params
    }

    /// How much the engine programs for each sample.
    pub closed spec fn mode(self) -> SamplingMode {
        self.mode
    }

    /// An engine that samples with `params` in the given mode.
    pub fn new(params: TouchParams, mode: SamplingMode) -> (engine: MeasurementEngine)
        ensures
            engine.params() == params,
            engine.mode() == mode,
    {
        MeasurementEngine { params, mode }
    }

    /// The parameters the engine programs.
    pub fn parameters(&self) -> (params: TouchParams)
        ensures
            params == self.params(),
    {
        self.params
    }

    /// How much the engine programs for each sample.
    pub fn sampling_mode(&self) -> (mode: SamplingMode)
        ensures
            mode == self.mode(),
    {
        self.mode
    }

    /// Starts what has to be done once before `channel` is sampled: the
    /// sequencer returned issues the writes of [`setup_sequence`].
    pub fn setup(&self, channel: Channel) -> (sequencer: RegisterSequencer)
        ensures
            sequencer@ == SequencerState::fresh(setup_sequence(self.mode(), channel)),
            sequencer@.wf(),
    {
        let mut program: Vec<RegisterWrite> = Vec::new();
        match self.mode {
            SamplingMode::SteadyState => {
                program.push(RegisterWrite::SelectChannel(channel));
            },
            SamplingMode::Defensive => {},
        }
        assert(program@ =~= setup_sequence(self.mode(), channel));
        RegisterSequencer::new(program)
    }

    /// Starts a measurement of `channel`: the request returned issues the
    /// writes of [`sample_sequence`], each followed by a wait for the
    /// synchronization-busy flag, then waits for the conversion to complete
    /// and for the flag once more, and reads the raw count.
    pub fn measure(&self, channel: Channel) -> (request: ConversionRequest)
        ensures
            request@ == ConversionState::fresh(
                channel,
                sample_sequence(self.mode(), self.params(), channel),
            ),
            request@.wf(),
    {
        let mut program: Vec<RegisterWrite> = Vec::new();
        match self.mode {
            SamplingMode::SteadyState => {},
            SamplingMode::Defensive => {
                program.push(RegisterWrite::SelectChannel(channel));
                program.push(RegisterWrite::SeriesResistor(self.params.resistor));
                program.push(RegisterWrite::Oversample(self.params.oversampling));
                program.push(
                    RegisterWrite::FrequencyControl {
                        spread: self.params.frequency_spread,
                        delay: self.params.sample_delay,
                    },
                );
                program.push(RegisterWrite::CompareCapacitance(self.params.compare_capacitance));
                program.push(RegisterWrite::InternalCapacitance(self.params.internal_capacitance));
                program.push(RegisterWrite::BurstMode(self.params.burst_mode));
            },
        }
        program.push(RegisterWrite::StartConversion);
        assert(program@ =~= sample_sequence(self.mode(), self.params(), channel));
        ConversionRequest {
            channel,
            sequencer: RegisterSequencer::new(program),
            phase: ConversionPhase::Configuring,
        }
    }
}

/// A request stays well formed, whatever is reported to it, and keeps its
/// channel and its program.
pub proof fn lemma_request_stays_wf(state: ConversionState, event: Event)
    requires
        state.wf(),
    ensures
        state.after(event).wf(),
        state.after(event).channel == state.channel,
        state.after(event).sequencer.program == state.sequencer.program,
{
}

/// A request holds its place until it is told what it waits for: an event
/// that does not answer the pending action changes nothing, and neither
/// does a flag reported raised or a conversion reported in progress, however
/// often it is reported.
pub proof fn lemma_request_holds_its_place(state: ConversionState, event: Event)
    requires
        state.wf(),
        !event.answers(state.pending()) || event.shows_busy(),
    ensures
        state.after(event) == state,
{
}

/// What holds after every number of rounds, whatever the peripheral shows.
proof fn lemma_rounds(start: ConversionState, hardware: spec_fn(nat) -> Status, steps: nat)
    requires
        start.wf(),
    ensures
        start.driven(hardware, steps).wf(),
        start.driven(hardware, steps).channel == start.channel,
        start.driven(hardware, steps).sequencer.program == start.sequencer.program,
        start.sequencer.issued <= start.driven(hardware, steps).sequencer.issued,
        sync_outstanding(
            start.phase is Configuring && start.sequencer.awaiting_sync,
            start.exchanges(hardware, steps),
        ) ==> start.driven(hardware, steps).phase is Configuring && start.driven(
            hardware,
            steps,
        ).sequencer.awaiting_sync,
        disciplined(
            start.phase is Configuring && start.sequencer.awaiting_sync,
            start.exchanges(hardware, steps),
        ),
        writes_of(start.exchanges(hardware, steps)) == start.sequencer.program.subrange(
            start.sequencer.issued as int,
            start.driven(hardware, steps).sequencer.issued as int,
        ),
        start.finished() ==> start.driven(hardware, steps) == start && start.exchanges(
            hardware,
            steps,
        ).len() == 0,
        !start.finished() && start.driven(hardware, steps).finished() ==> {
            let trace = start.exchanges(hardware, steps);
            &&& trace.len() > 0
            &&& trace.last().action is ReadResult
            &&& trace.last().event is RawResult
            &&& start.driven(hardware, steps).reading() == Reading::of_attempt(
                trace.last().event->raw,
            )
        },
    decreases steps,
{
    let initially = start.phase is Configuring && start.sequencer.awaiting_sync;
    let trace = start.exchanges(hardware, steps);
    if steps > 0 {
        let before = start.driven(hardware, (steps - 1) as nat);
        let earlier = start.exchanges(hardware, (steps - 1) as nat);
        lemma_rounds(start, hardware, (steps - 1) as nat);
        if !(before.pending() is Idle) {
            assert(trace.drop_last() == earlier);
            lemma_discipline_extends(initially, earlier, trace.last());
        }
    }
}

/// Whatever the peripheral shows and for however long, a request started
/// where the synchronization-busy flag is clear has no write issued while
/// the flag of an earlier write may still be raised, and no flag of its
/// writes is outstanding once it awaits the conversion.
pub proof fn lemma_measurement_waits_for_sync(
    start: ConversionState,
    hardware: spec_fn(nat) -> Status,
    steps: nat,
)
    requires
        start.wf(),
        start.phase is Configuring,
        !start.sequencer.awaiting_sync,
    ensures
        disciplined(false, start.exchanges(hardware, steps)),
        !(start.driven(hardware, steps).phase is Configuring) ==> !sync_outstanding(
            false,
            start.exchanges(hardware, steps),
        ),
{
    lemma_rounds(start, hardware, steps);
}

/// The writes issued for a request are the writes of its program, in order,
/// with none left out and none repeated; once the conversion is awaited
/// they are the whole of what was left of the program.
pub proof fn lemma_measurement_follows_program(
    start: ConversionState,
    hardware: spec_fn(nat) -> Status,
    steps: nat,
)
    requires
        start.wf(),
    ensures
        start.driven(hardware, steps).wf(),
        start.driven(hardware, steps).channel == start.channel,
        start.driven(hardware, steps).sequencer.program == start.sequencer.program,
        writes_of(start.exchanges(hardware, steps)) == start.sequencer.program.subrange(
            start.sequencer.issued as int,
            start.driven(hardware, steps).sequencer.issued as int,
        ),
        !(start.driven(hardware, steps).phase is Configuring) ==> writes_of(
            start.exchanges(hardware, steps),
        ) == start.sequencer.program.skip(start.sequencer.issued as int),
{
    lemma_rounds(start, hardware, steps);
}

/// A request that comes to its end while it is driven does so by reading the
/// result, and nothing is exchanged after that; its reading is the raw count
/// that was read, divided by four, or the invalid marker where the read gave
/// no count.
pub proof fn lemma_reading_is_scaled_count(
    start: ConversionState,
    hardware: spec_fn(nat) -> Status,
    steps: nat,
)
    requires
        start.wf(),
        !start.finished(),
        start.driven(hardware, steps).finished(),
    ensures
        start.exchanges(hardware, steps).len() > 0,
        start.exchanges(hardware, steps).last().action is ReadResult,
        start.exchanges(hardware, steps).last().event is RawResult,
        start.driven(hardware, steps).reading() == Reading::of_attempt(
            start.exchanges(hardware, steps).last().event->raw,
        ),
        start.exchanges(hardware, steps).last().event->raw matches Some(raw) ==> start.driven(
            hardware,
            steps,
        ).reading().value == raw / 4,
{
    lemma_rounds(start, hardware, steps);
}

/// On a peripheral that never reports the flag raised or the conversion in
/// progress, a request comes to its end after `rounds_left` rounds and not
/// before, and its reading is then what the result register gave in that
/// last round: the raw count divided by four, or the invalid marker where
/// the register gave no count.
pub proof fn lemma_measurement_finishes_unhindered(
    start: ConversionState,
    hardware: spec_fn(nat) -> Status,
    steps: nat,
)
    requires
        start.wf(),
        forall|n: nat| !(#[trigger] hardware(n)).sync_busy && !hardware(n).converting,
    ensures
        start.driven(hardware, steps).wf(),
        start.driven(hardware, steps).rounds_left() == if steps <= start.rounds_left() {
            start.rounds_left() - steps
        } else {
            0
        },
        start.driven(hardware, steps).finished() <==> steps >= start.rounds_left(),
        !start.finished() && steps >= start.rounds_left() ==> start.driven(
            hardware,
            steps,
        ).reading() == Reading::of_attempt(hardware((start.rounds_left() - 1) as nat).result),
    decreases steps,
{
    if steps > 0 {
        lemma_measurement_finishes_unhindered(start, hardware, (steps - 1) as nat);
        let status = hardware((steps - 1) as nat);
        assert(!status.sync_busy && !status.converting);
    }
}

/// What the writes of a defensive sample leave in the register block,
/// whatever was in it before: the channel selected, resistor, oversampling,
/// frequency control, both capacitances and the burst mode as the parameters
/// say, and a conversion started. Everything else is as it was.
pub proof fn lemma_defensive_sample_effect(
    params: TouchParams,
    channel: Channel,
    before: PeripheralRegisterSet,
)
    ensures
        before.programmed(sample_sequence(SamplingMode::Defensive, params, channel)) == (
        PeripheralRegisterSet {
            channel_select: channel.line_mask(),
            resistor: params.resistor,
            oversampling: params.oversampling,
            frequency_spread: params.frequency_spread,
            sample_delay: params.sample_delay,
            compare_capacitance: params.compare_capacitance,
            internal_capacitance: params.internal_capacitance,
            burst_mode: params.burst_mode,
            converting: true,
            sync_busy: false,
            ..before
        }),
{
    let program = sample_sequence(SamplingMode::Defensive, params, channel);
    let r1 = before.written(program[0]).synchronized();
    let r2 = r1.written(program[1]).synchronized();
    let r3 = r2.written(program[2]).synchronized();
    let r4 = r3.written(program[3]).synchronized();
    let r5 = r4.written(program[4]).synchronized();
    let r6 = r5.written(program[5]).synchronized();
    let r7 = r6.written(program[6]).synchronized();
    let r8 = r7.written(program[7]).synchronized();
    assert(program.take(0) =~= Seq::empty());
    lemma_programmed_prefix(before, program, 1);
    lemma_programmed_prefix(before, program, 2);
    lemma_programmed_prefix(before, program, 3);
    lemma_programmed_prefix(before, program, 4);
    lemma_programmed_prefix(before, program, 5);
    lemma_programmed_prefix(before, program, 6);
    lemma_programmed_prefix(before, program, 7);
    lemma_programmed_prefix(before, program, 8);
    assert(program.take(8) =~= program);
    assert(before.programmed(program) == r8);
}

/// What the writes of setup and of a sample leave in the register block in
/// steady state, whatever was in it before: setup leaves the channel
/// selected, a sample a conversion started. Everything else is as it was.
pub proof fn lemma_steady_state_effect(
    params: TouchParams,
    channel: Channel,
    before: PeripheralRegisterSet,
)
    ensures
        before.programmed(setup_sequence(SamplingMode::SteadyState, channel)) == (
        PeripheralRegisterSet { channel_select: channel.line_mask(), sync_busy: false, ..before }),
        before.programmed(sample_sequence(SamplingMode::SteadyState, params, channel)) == (
        PeripheralRegisterSet { converting: true, sync_busy: false, ..before }),
{
    let setup = setup_sequence(SamplingMode::SteadyState, channel);
    assert(setup.take(0) =~= Seq::empty());
    assert(setup.take(1) =~= setup);
    lemma_programmed_prefix(before, setup, 1);
    let program = sample_sequence(SamplingMode::SteadyState, params, channel);
    assert(program.take(0) =~= Seq::empty());
    assert(program.take(1) =~= program);
    lemma_programmed_prefix(before, program, 1);
}

} // verus!
