//! The life of the peripheral under one driver: disabled, initializing, and
//! then idle and measuring in turn.

use crate::configurator::{configuration_sequence, SamplingMode, TouchConfigurator, TouchParams};
use crate::measurement::{
    lemma_measurement_follows_program, sample_sequence, setup_sequence, ConversionRequest,
    ConversionState, MeasurementEngine,
};
use crate::protocol::{
    disciplined, lemma_discipline_extends, sync_outstanding, Action, Event, Exchange, Status,
};
use crate::reading::Reading;
use crate::registers::Channel;
use crate::sequencer::{RegisterSequencer, SequencerState};
use vstd::prelude::*;

verus! {

/// The states of the peripheral's life. There is no last state: once
/// initialized, the peripheral is idle and measuring in turn.
#[derive(Clone, Copy, Debug, PartialEq, Eq, Structural)]
pub enum Lifecycle {
    /// Nothing has been done to the peripheral yet.
    Disabled,
    /// The peripheral is being configured.
    Initializing,
    /// The peripheral is configured and no measurement is under way.
    Idle,
    /// A measurement is under way.
    Measuring,
}

/// What a driver is busy with.
pub enum Activity {
    /// Nothing has been done to the peripheral yet.
    Disabled,
    /// The configuration writes are being issued.
    Configuring(SequencerState),
    /// The writes that prepare the channel are being issued.
    SettingUp(SequencerState),
    /// Nothing: the peripheral is ready for a measurement.
    Idle,
    /// A conversion is under way.
    Measuring(ConversionState),
}

/// Something that happens to a driver.
pub enum Stimulus {
    /// The driver is told to initialize the peripheral.
    Initialize,
    /// The driver is told to measure.
    Measure,
    /// The driver's pending action is carried out on a peripheral that shows
    /// this status, and the outcome is reported to the driver.
    Round(Status),
}

/// The state of a driver.
pub struct DriverState {
    /// The parameters the peripheral is programmed with.
    pub params: TouchParams,
    /// How much is programmed for each sample.
    pub mode: SamplingMode,
    /// The channel that is sampled.
    pub channel: Channel,
    /// What the driver is busy with.
    pub activity: Activity,
}

impl DriverState {
    /// The state is one a driver can be in.
    pub open spec fn wf(self) -> bool {
        match self.activity {
            Activity::Configuring(sequencer) => {
                &&& sequencer.wf()
                &&& !sequencer.complete()
                &&& sequencer.program == configuration_sequence(self.params)
            },
            Activity::SettingUp(sequencer) => {
                &&& sequencer.wf()
                &&& !sequencer.complete()
                &&& sequencer.program == setup_sequence(self.mode, self.channel)
            },
            Activity::Measuring(request) => {
                &&& request.wf()
                &&& !request.finished()
                &&& request.channel == self.channel
                &&& request.sequencer.program == sample_sequence(
                    self.mode,
                    self.params,
                    self.channel,
                )
            },
            _ => true,
        }
    }

    /// A driver that has done nothing yet.
    pub open spec fn initial(params: TouchParams, mode: SamplingMode, channel: Channel) -> DriverState {
        DriverState { params, mode, channel, activity: Activity::Disabled }
    }

    /// Where in its life the peripheral is.
    pub open spec fn lifecycle(self) -> Lifecycle {
        match self.activity {
            Activity::Disabled => Lifecycle::Disabled,
            Activity::Configuring(_) => Lifecycle::Initializing,
            Activity::SettingUp(_) => Lifecycle::Initializing,
            Activity::Idle => Lifecycle::Idle,
            Activity::Measuring(_) => Lifecycle::Measuring,
        }
    }

    /// What the driver turns to once configuration is complete: the writes
    /// that prepare the channel, or, where there are none, nothing.
    pub open spec fn after_configuration(self) -> Activity {
        let setup = SequencerState::fresh(setup_sequence(self.mode, self.channel));
        if setup.complete() {
            Activity::Idle
        } else {
            Activity::SettingUp(setup)
        }
    }

    /// The state after the driver has been told to initialize: a disabled
    /// driver starts to configure, waiting first for the
    /// synchronization-busy flag; any other driver stays as it is.
    pub open spec fn initialized(self) -> DriverState {
        match self.activity {
            Activity::Disabled => DriverState {
                activity: Activity::Configuring(
                    SequencerState::waiting(configuration_sequence(self.params)),
                ),
                ..self
            },
            _ => self,
        }
    }

    /// The state after the driver has been told to measure: an idle driver
    /// starts a conversion; any other driver stays as it is.
    pub open spec fn measuring(self) -> DriverState {
        match self.activity {
            Activity::Idle => DriverState {
                activity: Activity::Measuring(
                    ConversionState::fresh(
                        self.channel,
                        sample_sequence(self.mode, self.params, self.channel),
                    ),
                ),
                ..self
            },
            _ => self,
        }
    }

    /// What the driver wants done next.
    pub open spec fn pending(self) -> Action {
        match self.activity {
            Activity::Configuring(sequencer) => sequencer.pending(),
            Activity::SettingUp(sequencer) => sequencer.pending(),
            Activity::Measuring(request) => request.pending(),
            _ => Action::Idle,
        }
    }

    /// The state after `event` has been reported. When the event completes
    /// configuration the driver goes on to prepare the channel; when it
    /// completes that, or brings a conversion to its end, the driver is idle.
    pub open spec fn after(self, event: Event) -> DriverState {
        match self.activity {
            Activity::Configuring(sequencer) => {
                let next = sequencer.after(event);
                DriverState {
                    activity: if next.complete() {
                        self.after_configuration()
                    } else {
                        Activity::Configuring(next)
                    },
                    ..self
                }
            },
            Activity::SettingUp(sequencer) => {
                let next = sequencer.after(event);
                DriverState {
                    activity: if next.complete() {
                        Activity::Idle
                    } else {
                        Activity::SettingUp(next)
                    },
                    ..self
                }
            },
            Activity::Measuring(request) => {
                let next = request.after(event);
                DriverState {
                    activity: if next.finished() {
                        Activity::Idle
                    } else {
                        Activity::Measuring(next)
                    },
                    ..self
                }
            },
            _ => self,
        }
    }

    /// The reading that reporting `event` brings: that of the conversion
    /// under way if the event brings it to its end, and none otherwise.
    pub open spec fn delivered(self, event: Event) -> Option<Reading> {
        match self.activity {
            Activity::Measuring(request) => if request.after(event).finished() {
                Some(request.after(event).reading())
            } else {
                None
            },
            _ => None,
        }
    }

    /// The number of rounds the driver needs to become idle on a peripheral
    /// that never makes it wait: those of what it is busy with and, while it
    /// configures, two more for every setup write.
    pub open spec fn rounds_left(self) -> nat {
        match self.activity {
            Activity::Configuring(sequencer) => sequencer.rounds_left() + 2 * setup_sequence(
                self.mode,
                self.channel,
            ).len(),
            Activity::SettingUp(sequencer) => sequencer.rounds_left(),
            Activity::Measuring(request) => request.rounds_left(),
            _ => 0,
        }
    }

    /// The state after `stimulus`.
    pub open spec fn stimulated(self, stimulus: Stimulus) -> DriverState {
        match stimulus {
            Stimulus::Initialize => self.initialized(),
            Stimulus::Measure => self.measuring(),
            Stimulus::Round(status) => self.after(Event::outcome(self.pending(), status)),
        }
    }

    /// The state after the stimuli of `stimuli`, in order.
    pub open spec fn lived(self, stimuli: Seq<Stimulus>) -> DriverState
        decreases stimuli.len(),
    {
        if stimuli.len() == 0 {
            self
        } else {
            self.lived(stimuli.drop_last()).stimulated(stimuli.last())
        }
    }

    /// The exchanges with the peripheral that the stimuli of `stimuli` lead
    /// to. Only a round in which the driver is not idle leaves an exchange.
    pub open spec fn exchanges(self, stimuli: Seq<Stimulus>) -> Seq<Exchange>
        decreases stimuli.len(),
    {
        if stimuli.len() == 0 {
            Seq::empty()
        } else {
            let before = self.lived(stimuli.drop_last());
            let earlier = self.exchanges(stimuli.drop_last());
            match stimuli.last() {
                Stimulus::Round(status) => if before.pending() is Idle {
                    earlier
                } else {
                    earlier.push(
                        Exchange {
                            action: before.pending(),
                            event: Event::outcome(before.pending(), status),
                        },
                    )
                },
                _ => earlier,
            }
        }
    }
}

enum Stage {
    Disabled,
    Configuring(RegisterSequencer),
    SettingUp(RegisterSequencer),
    Idle,
    Measuring(ConversionRequest),
}

/// Drives the peripheral through its life for one channel.
pub struct TouchDriver {
    engine: MeasurementEngine,
    channel: Channel,
    stage: Stage,
}

impl View for TouchDriver {
    type V = DriverState;

    closed spec fn view(&self) -> DriverState {
        DriverState {
            params: self.engine.params(),
            mode: self.engine.mode(),
            channel: self.channel,
            activity: match self.stage {
                Stage::Disabled => Activity::Disabled,
                Stage::Configuring(sequencer) => Activity::Configuring(sequencer@),
                Stage::SettingUp(sequencer) => Activity::SettingUp(sequencer@),
                Stage::Idle => Activity::Idle,
                Stage::Measuring(request) => Activity::Measuring(request@),
            },
        }
    }
}

impl TouchDriver {
    /// A driver for `channel` that has done nothing to the peripheral yet.
    pub fn new(params: TouchParams, mode: SamplingMode, channel: Channel) -> (driver: TouchDriver)
        ensures
            driver@ == DriverState::initial(params, mode, channel),
    {
        TouchDriver { engine: MeasurementEngine::new(params, mode), channel, stage: Stage::Disabled }
    }

    /// Where in its life the peripheral is.
    pub fn lifecycle(&self) -> (lifecycle: Lifecycle)
        ensures
            lifecycle == self@.lifecycle(),
    {
        match &self.stage {
            Stage::Disabled => Lifecycle::Disabled,
            Stage::Configuring(_) => Lifecycle::Initializing,
            Stage::SettingUp(_) => Lifecycle::Initializing,
            Stage::Idle => Lifecycle::Idle,
            Stage::Measuring(_) => Lifecycle::Measuring,
        }
    }

    /// Starts the initialization of the peripheral, if the driver has done
    /// nothing yet, and says whether it did. A driver past that point stays
    /// as it is.
    pub fn initialize(&mut self) -> (started: bool)
        ensures
            started == (old(self)@.activity is Disabled),
            final(self)@ == old(self)@.initialized(),
    {
        match &self.stage {
            Stage::Disabled => {
                let configurator = TouchConfigurator::new(self.engine.parameters());
                self.stage = Stage::Configuring(configurator.configure());
                true
            },
            _ => false,
        }
    }

    /// Starts a measurement if the peripheral is idle. Where it is not, the
    /// driver is not ready: nothing is started, and the reading to go on with
    /// is handed back at once, the invalid marker.
    pub fn measure(&mut self) -> (refused: Option<Reading>)
        ensures
            final(self)@ == old(self)@.measuring(),
            refused is None <==> old(self)@.activity is Idle,
            refused matches Some(reading) ==> reading == Reading::invalid_marker(),
    {
        match &self.stage {
            Stage::Idle => {
                self.stage = Stage::Measuring(self.engine.measure(self.channel));
                None
            },
            _ => Some(Reading::invalid()),
        }
    }

    /// What is to be done on the peripheral next.
    pub fn pending(&self) -> (action: Action)
        ensures
            action == self@.pending(),
    {
        match &self.stage {
            Stage::Configuring(sequencer) => sequencer.pending(),
            Stage::SettingUp(sequencer) => sequencer.pending(),
            Stage::Measuring(request) => request.pending(),
            _ => Action::Idle,
        }
    }

    /// Takes note of what carrying out the pending action gave, and hands
    /// out the reading when this brings a conversion to its end: the raw
    /// count divided by four, or the invalid marker where the read gave no
    /// count.
    pub fn observe(&mut self, event: Event) -> (reading: Option<Reading>)
        ensures
            final(self)@ == old(self)@.after(event),
            reading == old(self)@.delivered(event),
    {
        let mut stage = Stage::Idle;
        core::mem::swap(&mut self.stage, &mut stage);
        match stage {
            Stage::Configuring(mut sequencer) => {
                sequencer.observe(event);
                if sequencer.is_complete() {
                    let setup = self.engine.setup(self.channel);
                    if setup.is_complete() {
                        self.stage = Stage::Idle;
                    } else {
                        self.stage = Stage::SettingUp(setup);
                    }
                } else {
                    self.stage = Stage::Configuring(sequencer);
                }
                None
            },
            Stage::SettingUp(mut sequencer) => {
                sequencer.observe(event);
                if sequencer.is_complete() {
                    self.stage = Stage::Idle;
                } else {
                    self.stage = Stage::SettingUp(sequencer);
                }
                None
            },
            Stage::Measuring(mut request) => {
                request.observe(event);
                if request.is_finished() {
                    self.stage = Stage::Idle;
                    Some(request.finish())
                } else {
                    self.stage = Stage::Measuring(request);
                    None
                }
            },
            Stage::Disabled => {
                self.stage = Stage::Disabled;
                None
            },
            Stage::Idle => None,
        }
    }
}

/// A driver stays well formed, whatever happens to it, and keeps its
/// parameters, its mode and its channel.
pub proof fn lemma_driver_stays_wf(state: DriverState, stimulus: Stimulus)
    requires
        state.wf(),
    ensures
        state.stimulated(stimulus).wf(),
        state.stimulated(stimulus).params == state.params,
        state.stimulated(stimulus).mode == state.mode,
        state.stimulated(stimulus).channel == state.channel,
{
}

/// A driver holds its place until it is told what it waits for: an event
/// that does not answer the pending action changes nothing and brings no
/// reading, and neither does a flag reported raised or a conversion
/// reported in progress, however often it is reported.
pub proof fn lemma_driver_holds_its_place(state: DriverState, event: Event)
    requires
        state.wf(),
        !event.answers(state.pending()) || event.shows_busy(),
    ensures
        state.after(event) == state,
        state.delivered(event) is None,
{
}

/// The peripheral's life runs in one direction: from disabled to
/// initializing, from there to idle, and then between idle and measuring.
/// Only the order to initialize takes it out of disabled, only the order to
/// measure takes it out of idle, and only a round takes it out of
/// initializing or measuring.
pub proof fn lemma_lifecycle_order(state: DriverState, stimulus: Stimulus)
    requires
        state.wf(),
    ensures
        match state.lifecycle() {
            Lifecycle::Disabled => if stimulus is Initialize {
                state.stimulated(stimulus).lifecycle() == Lifecycle::Initializing
            } else {
                state.stimulated(stimulus) == state
            },
            Lifecycle::Initializing => if stimulus is Round {
                state.stimulated(stimulus).lifecycle() == Lifecycle::Initializing
                    || state.stimulated(stimulus).lifecycle() == Lifecycle::Idle
            } else {
                state.stimulated(stimulus) == state
            },
            Lifecycle::Idle => if stimulus is Measure {
                state.stimulated(stimulus).lifecycle() == Lifecycle::Measuring
            } else {
                state.stimulated(stimulus) == state
            },
            Lifecycle::Measuring => if stimulus is Round {
                state.stimulated(stimulus).lifecycle() == Lifecycle::Measuring
                    || state.stimulated(stimulus).lifecycle() == Lifecycle::Idle
            } else {
                state.stimulated(stimulus) == state
            },
        },
{
}

/// A reading is delivered exactly when the result is read for the
/// conversion under way, and it is the raw count that was read, divided by
/// four, or the invalid marker where the read gave no count. The driver is
/// idle afterwards.
pub proof fn lemma_delivery_is_scaled_count(state: DriverState, event: Event)
    requires
        state.wf(),
    ensures
        state.delivered(event) is Some <==> state.lifecycle() == Lifecycle::Measuring
            && state.pending() is ReadResult && event is RawResult,
        state.delivered(event) matches Some(reading) ==> {
            &&& reading == Reading::of_attempt(event->raw)
            &&& event->raw matches Some(raw) ==> reading.value == raw / 4
            &&& event->raw is None ==> reading.value == 0xAAAA
            &&& state.after(event).lifecycle() == Lifecycle::Idle
        },
{
}

/// The stimuli of `steps` rounds on a peripheral that shows `hardware(n)` in
/// round `n`.
pub open spec fn rounds(hardware: spec_fn(nat) -> Status, steps: nat) -> Seq<Stimulus> {
    Seq::new(steps, |n: int| Stimulus::Round(hardware(n as nat)))
}

/// While it measures, a driver is as far as its conversion request: after
/// any number of rounds, whatever the peripheral shows, the driver is busy
/// with the request as that many rounds leave it, or idle if they bring the
/// request to its end.
pub proof fn lemma_measuring_driver_follows_request(
    state: DriverState,
    hardware: spec_fn(nat) -> Status,
    steps: nat,
)
    requires
        state.wf(),
        state.activity is Measuring,
    ensures
        state.lived(rounds(hardware, steps)).activity == if state.activity->Measuring_0.driven(
            hardware,
            steps,
        ).finished() {
            Activity::Idle
        } else {
            Activity::Measuring(state.activity->Measuring_0.driven(hardware, steps))
        },
        state.lived(rounds(hardware, steps)).wf(),
    decreases steps,
{
    if steps > 0 {
        let earlier = (steps - 1) as nat;
        lemma_measuring_driver_follows_request(state, hardware, earlier);
        assert(rounds(hardware, steps).drop_last() == rounds(hardware, earlier));
        lemma_measurement_follows_program(state.activity->Measuring_0, hardware, earlier);
        lemma_driver_stays_wf(state.lived(rounds(hardware, earlier)), rounds(hardware, steps).last());
    } else {
        assert(rounds(hardware, steps).len() == 0);
    }
}

/// On a peripheral that never reports the flag raised or the conversion in
/// progress, every round brings a driver one round closer to being idle, and
/// the round that ends a measurement delivers what the result register
/// gives in it: the raw count divided by four, or the invalid marker where
/// the register gives no count.
pub proof fn lemma_unhindered_round(state: DriverState, status: Status)
    requires
        state.wf(),
        !status.sync_busy,
        !status.converting,
    ensures
        state.stimulated(Stimulus::Round(status)).wf(),
        state.stimulated(Stimulus::Round(status)).rounds_left() == if state.rounds_left() > 0 {
            state.rounds_left() - 1
        } else {
            0
        },
        state.rounds_left() == 0 <==> state.lifecycle() == Lifecycle::Disabled || state.lifecycle()
            == Lifecycle::Idle,
        state.delivered(Event::outcome(state.pending(), status)) == if state.lifecycle()
            == Lifecycle::Measuring && state.rounds_left() == 1 {
            Some(Reading::of_attempt(status.result))
        } else {
            None
        },
{
}

/// On a peripheral that never reports the flag raised or the conversion in
/// progress, a driver that is initializing or measuring is idle after
/// `rounds_left` rounds and not before: initialization takes one round, two
/// for every configuration write and two for every setup write, and a
/// measurement two for every write of the sample and three more.
pub proof fn lemma_unhindered_driver_becomes_idle(
    state: DriverState,
    hardware: spec_fn(nat) -> Status,
    steps: nat,
)
    requires
        state.wf(),
        forall|n: nat| !(#[trigger] hardware(n)).sync_busy && !hardware(n).converting,
    ensures
        state.lived(rounds(hardware, steps)).wf(),
        state.lived(rounds(hardware, steps)).rounds_left() == if steps <= state.rounds_left() {
            state.rounds_left() - steps
        } else {
            0
        },
        state.rounds_left() > 0 ==> (state.lived(rounds(hardware, steps)).lifecycle()
            == Lifecycle::Idle <==> steps >= state.rounds_left()),
        state.activity is Disabled ==> state.initialized().rounds_left() == 1 + 2
            * configuration_sequence(state.params).len() + 2 * setup_sequence(
            state.mode,
            state.channel,
        ).len(),
        state.activity is Idle ==> state.measuring().rounds_left() == 2 * sample_sequence(
            state.mode,
            state.params,
            state.channel,
        ).len() + 3,
    decreases steps,
{
    if steps > 0 {
        let earlier = (steps - 1) as nat;
        lemma_unhindered_driver_becomes_idle(state, hardware, earlier);
        assert(rounds(hardware, steps).drop_last() == rounds(hardware, earlier));
        assert(!hardware(earlier).sync_busy && !hardware(earlier).converting);
        lemma_unhindered_round(state.lived(rounds(hardware, earlier)), hardware(earlier));
        lemma_lifecycle_order(state.lived(rounds(hardware, earlier)), rounds(hardware, steps).last());
    } else {
        assert(rounds(hardware, steps).len() == 0);
        lemma_unhindered_round(state, hardware(0));
    }
}

/// The flag may be raised only while the driver is waiting for it.
spec fn awaiting(state: DriverState) -> bool {
    match state.activity {
        Activity::Disabled => true,
        Activity::Configuring(sequencer) => sequencer.awaiting_sync,
        Activity::SettingUp(sequencer) => sequencer.awaiting_sync,
        Activity::Idle => false,
        Activity::Measuring(request) => request.phase is Configuring
            && request.sequencer.awaiting_sync,
    }
}

/// What holds after every sequence of stimuli.
proof fn lemma_life(
    params: TouchParams,
    mode: SamplingMode,
    channel: Channel,
    stimuli: Seq<Stimulus>,
)
    ensures
        DriverState::initial(params, mode, channel).lived(stimuli).wf(),
        sync_outstanding(true, DriverState::initial(params, mode, channel).exchanges(stimuli))
            ==> awaiting(DriverState::initial(params, mode, channel).lived(stimuli)),
        disciplined(true, DriverState::initial(params, mode, channel).exchanges(stimuli)),
    decreases stimuli.len(),
{
    let start = DriverState::initial(params, mode, channel);
    let trace = start.exchanges(stimuli);
    if stimuli.len() > 0 {
        let before = start.lived(stimuli.drop_last());
        let earlier = start.exchanges(stimuli.drop_last());
        lemma_life(params, mode, channel, stimuli.drop_last());
        if trace.len() > earlier.len() {
            assert(trace.drop_last() == earlier);
            lemma_discipline_extends(true, earlier, trace.last());
        }
    }
}

/// From its first moment on, whatever it is told to do, whatever the
/// peripheral shows and for however long, a driver has no write issued
/// while the synchronization-busy flag may still be raised, be it from an
/// earlier write of its own or from before its time.
pub proof fn lemma_driver_waits_for_sync(
    params: TouchParams,
    mode: SamplingMode,
    channel: Channel,
    stimuli: Seq<Stimulus>,
)
    ensures
        disciplined(true, DriverState::initial(params, mode, channel).exchanges(stimuli)),
        DriverState::initial(params, mode, channel).lived(stimuli).lifecycle() == Lifecycle::Idle
            ==> !sync_outstanding(
            true,
            DriverState::initial(params, mode, channel).exchanges(stimuli),
        ),
{
    lemma_life(params, mode, channel, stimuli);
}

} // verus!
