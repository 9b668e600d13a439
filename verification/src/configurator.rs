//! Start-up configuration of the touch peripheral.

use crate::registers::{
    lemma_programmed_prefix, Interrupt, Oversampling, PeripheralRegisterSet, RegisterWrite,
    Resistor, SampleDelay,
};
use crate::sequencer::{RegisterSequencer, SequencerState};
use vstd::prelude::*;

verus! {

/// Channel-enable mask with the bit of every sensing line set.
pub const ALL_LINES: u16 = 0xFFFF;

/// Internal-capacitance trim of the reference configuration.
pub const INTERNAL_CAPACITANCE: u8 = 0x3F;

/// Burst-timing byte of the reference configuration.
pub const BURST_MODE: u8 = 0xA4;

/// Compare-capacitance trim of the reference configuration that samples in
/// steady state.
pub const COMPARE_CAPACITANCE_STEADY: u16 = 0x2000;

/// Compare-capacitance trim of the reference configuration that reprograms
/// the peripheral for every sample.
pub const COMPARE_CAPACITANCE_DEFENSIVE: u16 = 0x3000;

/// First mask applied to the reserved register during initialization. What
/// the bit it clears does is not documented.
pub const RESERVED_MASK_FIRST: u8 = 0xF7;

/// Second mask applied to the reserved register during initialization.
pub const RESERVED_MASK_SECOND: u8 = 0xFB;

/// Third mask applied to the reserved register during initialization.
pub const RESERVED_MASK_THIRD: u8 = 0xFC;

/// How much of the peripheral is programmed for each sample.
#[derive(Clone, Copy, Debug, PartialEq, Eq, Structural)]
pub enum SamplingMode {
    /// The channel is selected once at setup; a sample only starts a
    /// conversion, waits for it and reads the result.
    SteadyState,
    /// Every sample programs channel, resistor, oversampling, frequency
    /// control, capacitances and burst mode again before it starts the
    /// conversion, for use where the configuration may have drifted.
    Defensive,
}

/// The parameters the peripheral is programmed with.
#[derive(Clone, Copy, Debug, PartialEq, Eq, Structural)]
pub struct TouchParams {
    /// Series resistor.
    pub resistor: Resistor,
    /// Oversampling factor.
    pub oversampling: Oversampling,
    /// Whether frequency spreading is enabled.
    pub frequency_spread: bool,
    /// Sample delay.
    pub sample_delay: SampleDelay,
    /// Compare-capacitance trim.
    pub compare_capacitance: u16,
    /// Internal-capacitance trim.
    pub internal_capacitance: u8,
    /// Burst-timing byte.
    pub burst_mode: u8,
}

impl TouchParams {
    /// The reference parameters for a sampling mode.
    pub open spec fn reference_for(mode: SamplingMode) -> TouchParams {
        TouchParams {
            resistor: Resistor::Res50K,
            oversampling: Oversampling::Oversample4,
            frequency_spread: false,
            sample_delay: SampleDelay::FreqHop1,
            compare_capacitance: match mode {
                SamplingMode::SteadyState => COMPARE_CAPACITANCE_STEADY,
                SamplingMode::Defensive => COMPARE_CAPACITANCE_DEFENSIVE,
            },
            internal_capacitance: INTERNAL_CAPACITANCE,
            burst_mode: BURST_MODE,
        }
    }

    /// The reference parameters for a sampling mode: a 50 kilo-ohm resistor,
    /// four-fold oversampling, no frequency spreading, a sample delay of one
    /// frequency hop, internal capacitance 0x3F, burst mode 0xA4, and compare
    /// capacitance 0x2000 in steady state, 0x3000 in defensive mode.
    pub fn reference(mode: SamplingMode) -> (params: TouchParams)
        ensures
            params == TouchParams::reference_for(mode),
            params.internal_capacitance == 0x3F,
            params.burst_mode == 0xA4,
            params.compare_capacitance == 0x2000 || params.compare_capacitance == 0x3000,
            params.compare_capacitance == 0x2000 <==> mode == SamplingMode::SteadyState,
    {
        TouchParams {
            resistor: Resistor::Res50K,
            oversampling: Oversampling::Oversample4,
            frequency_spread: false,
            sample_delay: SampleDelay::FreqHop1,
            compare_capacitance: match mode {
                SamplingMode::SteadyState => COMPARE_CAPACITANCE_STEADY,
                SamplingMode::Defensive => COMPARE_CAPACITANCE_DEFENSIVE,
            },
            internal_capacitance: INTERNAL_CAPACITANCE,
            burst_mode: BURST_MODE,
        }
    }
}

/// The writes that configure the peripheral, in the order the hardware
/// wants them: disable the peripheral, clear the undocumented bits of the
/// reserved register with its three masks, set frequency control, trigger
/// software init, enable run-in-standby, clear the enables of the
/// window-comparator and end-of-conversion interrupts, enable every sensing
/// line, and enable the peripheral.
pub open spec fn configuration_sequence(params: TouchParams) -> Seq<RegisterWrite> {
    seq![
        RegisterWrite::Enable(false),
        RegisterWrite::MaskReserved(RESERVED_MASK_FIRST),
        RegisterWrite::MaskReserved(RESERVED_MASK_SECOND),
        RegisterWrite::MaskReserved(RESERVED_MASK_THIRD),
        RegisterWrite::FrequencyControl {
            spread: params.frequency_spread,
            delay: params.sample_delay,
        },
        RegisterWrite::SoftwareInit,
        RegisterWrite::RunInStandby(true),
        RegisterWrite::ClearInterruptEnable(Interrupt::WindowComparator),
        RegisterWrite::ClearInterruptEnable(Interrupt::EndOfConversion),
        RegisterWrite::ChannelEnable(ALL_LINES),
        RegisterWrite::Enable(true),
    ]
}

/// Programs the peripheral-wide parameters at start-up.
pub struct TouchConfigurator {
    params: TouchParams,
}

impl View for TouchConfigurator {
    type V = TouchParams;

    closed spec fn view(&self) -> TouchParams {
        self.params
    }
}

impl TouchConfigurator {
    /// A configurator for the given parameters.
    pub fn new(params: TouchParams) -> (configurator: TouchConfigurator)
        ensures
            configurator@ == params,
    {
        TouchConfigurator { params }
    }

    /// The parameters the configurator programs.
    pub fn params(&self) -> (params: TouchParams)
        ensures
            params == self@,
    {
        self.params
    }

    /// Starts the configuration of the peripheral: the sequencer returned
    /// first waits for the synchronization-busy flag to clear and then issues
    /// the writes of [`configuration_sequence`], each followed by a wait for
    /// the flag. Nothing in it can fail; it is complete once the last write
    /// has been synchronized.
    pub fn configure(&self) -> (sequencer: RegisterSequencer)
        ensures
            sequencer@ == SequencerState::waiting(configuration_sequence(self@)),
            sequencer@.wf(),
    {
        let mut program: Vec<RegisterWrite> = Vec::new();
        program.push(RegisterWrite::Enable(false));
        program.push(RegisterWrite::MaskReserved(RESERVED_MASK_FIRST));
        program.push(RegisterWrite::MaskReserved(RESERVED_MASK_SECOND));
        program.push(RegisterWrite::MaskReserved(RESERVED_MASK_THIRD));
        program.push(
            RegisterWrite::FrequencyControl {
                spread: self.params.frequency_spread,
                delay: self.params.sample_delay,
            },
        );
        program.push(RegisterWrite::SoftwareInit);
        program.push(RegisterWrite::RunInStandby(true));
        program.push(RegisterWrite::ClearInterruptEnable(Interrupt::WindowComparator));
        program.push(RegisterWrite::ClearInterruptEnable(Interrupt::EndOfConversion));
        program.push(RegisterWrite::ChannelEnable(ALL_LINES));
        program.push(RegisterWrite::Enable(true));
        assert(program@ =~= configuration_sequence(self@));
        RegisterSequencer::after_sync(program)
    }
}

/// What configuration leaves in the register block, whatever was in it
/// before: the peripheral enabled and running in standby, software init
/// triggered, both interrupts disabled, every sensing line enabled,
/// frequency control as the parameters say, and the reserved register with
/// its four lowest bits cleared. Everything else is as it was.
pub proof fn lemma_configuration_effect(params: TouchParams, before: PeripheralRegisterSet)
    ensures
        before.programmed(configuration_sequence(params)) == (PeripheralRegisterSet {
            enable: true,
            run_in_standby: true,
            software_init: true,
            window_comparator_interrupt: false,
            end_of_conversion_interrupt: false,
            channel_enable: ALL_LINES,
            frequency_spread: params.frequency_spread,
            sample_delay: params.sample_delay,
            reserved: before.reserved & 0xF0,
            sync_busy: false,
            ..before
        }),
{
    let program = configuration_sequence(params);
    let r0 = before;
    let r1 = r0.written(program[0]).synchronized();
    let r2 = r1.written(program[1]).synchronized();
    let r3 = r2.written(program[2]).synchronized();
    let r4 = r3.written(program[3]).synchronized();
    let r5 = r4.written(program[4]).synchronized();
    let r6 = r5.written(program[5]).synchronized();
    let r7 = r6.written(program[6]).synchronized();
    let r8 = r7.written(program[7]).synchronized();
    let r9 = r8.written(program[8]).synchronized();
    let r10 = r9.written(program[9]).synchronized();
    let r11 = r10.written(program[10]).synchronized();
    lemma_programmed_prefix(before, program, 1);
    lemma_programmed_prefix(before, program, 2);
    lemma_programmed_prefix(before, program, 3);
    lemma_programmed_prefix(before, program, 4);
    lemma_programmed_prefix(before, program, 5);
    lemma_programmed_prefix(before, program, 6);
    lemma_programmed_prefix(before, program, 7);
    lemma_programmed_prefix(before, program, 8);
    lemma_programmed_prefix(before, program, 9);
    lemma_programmed_prefix(before, program, 10);
    lemma_programmed_prefix(before, program, 11);
    assert(program.take(0) =~= Seq::empty());
    assert(program.take(11) =~= program);
    assert(before.programmed(program) == r11);
    let reserved = before.reserved;
    assert(((reserved & 0xF7) & 0xFB) & 0xFC == reserved & 0xF0) by (bit_vector);
}

/// Configuration keeps the peripheral disabled from its first write until
/// its last: every write but the first lands on a disabled peripheral.
pub proof fn lemma_configured_while_disabled(
    params: TouchParams,
    before: PeripheralRegisterSet,
    count: int,
)
    requires
        1 <= count < configuration_sequence(params).len(),
    ensures
        !before.programmed(configuration_sequence(params).take(count)).enable,
    decreases count,
{
    let program = configuration_sequence(params);
    lemma_programmed_prefix(before, program, count);
    if count == 1 {
        assert(program.take(0) =~= Seq::empty());
    } else {
        lemma_configured_while_disabled(params, before, count - 1);
    }
}

} // verus!
