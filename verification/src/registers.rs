//! The touch peripheral's register surface: the values its fields take, the
//! writes a driver issues, and a model of the register block itself.

use vstd::prelude::*;

verus! {

/// Number of sensing lines the peripheral can select between.
pub const LINE_COUNT: u8 = 16;

/// The registers of the touch peripheral, by role.
#[derive(Clone, Copy, Debug, PartialEq, Eq, Structural)]
pub enum Register {
    /// Peripheral enable and run-in-standby.
    CtrlA,
    /// Synchronization-busy flag; read-only.
    CtrlB,
    /// Software-init trigger.
    CtrlC,
    /// Start-conversion bit and oversampling factor.
    ConvCtrl,
    /// Frequency-spread enable and sample delay.
    FreqCtrl,
    /// Series resistor selection.
    SerRes,
    /// Selection of the sensing line to convert.
    YSelect,
    /// Mask of the sensing lines that are enabled.
    YSelectEn,
    /// Compare-capacitance trim.
    CompCap,
    /// Internal-capacitance trim.
    IntCap,
    /// Burst-timing byte.
    BurstMode,
    /// Interrupt-enable clear.
    IntEnClr,
    /// Raw conversion count; read-only.
    Result,
    /// Register without documentation that initialization clears bits in.
    Reserved,
}

/// A sensing line of the peripheral, identified by its number.
///
/// Its view is that number, which is below [`LINE_COUNT`] for every channel
/// that exists at run time.
#[derive(Clone, Copy, Debug, PartialEq, Eq, Structural)]
pub struct Channel {
    index: u8,
}

impl View for Channel {
    type V = int;

    closed spec fn view(&self) -> int {
        self.index as int
    }
}

impl Channel {
    #[verifier::type_invariant]
    spec fn in_range(self) -> bool {
        self.index < LINE_COUNT
    }

    /// Whether the channel names one of the peripheral's lines.
    pub open spec fn wf(self) -> bool {
        0 <= self@ < LINE_COUNT
    }

    /// The bit that stands for this channel in the line-select masks.
    pub open spec fn line_mask(self) -> u16 {
        1u16 << (self@ as u16)
    }

    /// The channel for sensing line `index`, if the peripheral has such a line.
    pub fn new(index: u8) -> (channel: Option<Channel>)
        ensures
            channel is Some <==> index < LINE_COUNT,
            channel matches Some(c) ==> c@ == index && c.wf(),
    {
        if index < LINE_COUNT {
            Some(Channel { index })
        } else {
            None
        }
    }

    /// The number of the sensing line.
    pub fn index(&self) -> (index: u8)
        ensures
            index == self@,
            self.wf(),
    {
        proof {
            use_type_invariant(self);
        }
        self.index
    }

    /// The bit that stands for this channel in the line-select masks.
    pub fn mask(&self) -> (mask: u16)
        ensures
            mask == self.line_mask(),
            self.wf(),
    {
        proof {
            use_type_invariant(self);
        }
        1u16 << (self.index as u16)
    }
}

/// Series resistor switched into the sensing line.
#[derive(Clone, Copy, Debug, PartialEq, Eq, Structural)]
pub enum Resistor {
    /// No series resistor.
    Res0,
    /// 20 kilo-ohm.
    Res20K,
    /// 50 kilo-ohm.
    Res50K,
    /// 100 kilo-ohm.
    Res100K,
}

/// Number of conversions accumulated into one result.
#[derive(Clone, Copy, Debug, PartialEq, Eq, Structural)]
pub enum Oversampling {
    /// A single conversion.
    Oversample1,
    /// Two conversions.
    Oversample2,
    /// Four conversions.
    Oversample4,
    /// Eight conversions.
    Oversample8,
    /// Sixteen conversions.
    Oversample16,
    /// Thirty-two conversions.
    Oversample32,
    /// Sixty-four conversions.
    Oversample64,
}

/// Sample delay, counted in frequency-hop steps.
#[derive(Clone, Copy, Debug, PartialEq, Eq, Structural)]
pub enum SampleDelay {
    FreqHop1,
    FreqHop2,
    FreqHop3,
    FreqHop4,
    FreqHop5,
    FreqHop6,
    FreqHop7,
    FreqHop8,
    FreqHop9,
    FreqHop10,
    FreqHop11,
    FreqHop12,
    FreqHop13,
    FreqHop14,
    FreqHop15,
    FreqHop16,
}

/// The interrupt sources of the peripheral.
#[derive(Clone, Copy, Debug, PartialEq, Eq, Structural)]
pub enum Interrupt {
    /// The window comparator tripped.
    WindowComparator,
    /// A conversion ended.
    EndOfConversion,
}

/// One write to a register of the peripheral, described by what it sets.
///
/// Writes that touch a single field of a shared register leave the other
/// fields of that register as they are.
#[derive(Clone, Copy, Debug, PartialEq, Eq, Structural)]
pub enum RegisterWrite {
    /// Sets or clears the peripheral-enable bit.
    Enable(bool),
    /// Sets or clears the run-in-standby bit.
    RunInStandby(bool),
    /// Sets the software-init trigger.
    SoftwareInit,
    /// Replaces the reserved register's byte by its bitwise AND with the mask.
    MaskReserved(u8),
    /// Sets frequency-spread enable and the sample delay.
    FrequencyControl { spread: bool, delay: SampleDelay },
    /// Clears the enable bit of one interrupt source.
    ClearInterruptEnable(Interrupt),
    /// Sets the mask of enabled sensing lines.
    ChannelEnable(u16),
    /// Selects the sensing line to convert.
    SelectChannel(Channel),
    /// Selects the series resistor.
    SeriesResistor(Resistor),
    /// Sets the oversampling factor.
    Oversample(Oversampling),
    /// Sets the compare-capacitance trim.
    CompareCapacitance(u16),
    /// Sets the internal-capacitance trim.
    InternalCapacitance(u8),
    /// Sets the burst-timing byte.
    BurstMode(u8),
    /// Sets the start-conversion bit.
    StartConversion,
}

impl RegisterWrite {
    /// The register the write goes to.
    pub open spec fn target(self) -> Register {
        match self {
            RegisterWrite::Enable(_) => Register::CtrlA,
            RegisterWrite::RunInStandby(_) => Register::CtrlA,
            RegisterWrite::SoftwareInit => Register::CtrlC,
            RegisterWrite::MaskReserved(_) => Register::Reserved,
            RegisterWrite::FrequencyControl { .. } => Register::FreqCtrl,
            RegisterWrite::ClearInterruptEnable(_) => Register::IntEnClr,
            RegisterWrite::ChannelEnable(_) => Register::YSelectEn,
            RegisterWrite::SelectChannel(_) => Register::YSelect,
            RegisterWrite::SeriesResistor(_) => Register::SerRes,
            RegisterWrite::Oversample(_) => Register::ConvCtrl,
            RegisterWrite::CompareCapacitance(_) => Register::CompCap,
            RegisterWrite::InternalCapacitance(_) => Register::IntCap,
            RegisterWrite::BurstMode(_) => Register::BurstMode,
            RegisterWrite::StartConversion => Register::ConvCtrl,
        }
    }

    /// The register the write goes to.
    pub fn register(&self) -> (register: Register)
        ensures
            register == self.target(),
    {
        match self {
            RegisterWrite::Enable(_) => Register::CtrlA,
            RegisterWrite::RunInStandby(_) => Register::CtrlA,
            RegisterWrite::SoftwareInit => Register::CtrlC,
            RegisterWrite::MaskReserved(_) => Register::Reserved,
            RegisterWrite::FrequencyControl { .. } => Register::FreqCtrl,
            RegisterWrite::ClearInterruptEnable(_) => Register::IntEnClr,
            RegisterWrite::ChannelEnable(_) => Register::YSelectEn,
            RegisterWrite::SelectChannel(_) => Register::YSelect,
            RegisterWrite::SeriesResistor(_) => Register::SerRes,
            RegisterWrite::Oversample(_) => Register::ConvCtrl,
            RegisterWrite::CompareCapacitance(_) => Register::CompCap,
            RegisterWrite::InternalCapacitance(_) => Register::IntCap,
            RegisterWrite::BurstMode(_) => Register::BurstMode,
            RegisterWrite::StartConversion => Register::ConvCtrl,
        }
    }
}

/// The register block of the touch peripheral, field by field.
///
/// A write that is followed by a raised `sync_busy` flag has not yet taken
/// effect in the hardware: no further register operation may be issued until
/// the flag has cleared.
#[derive(Clone, Copy, Debug, PartialEq, Eq, Structural)]
pub struct PeripheralRegisterSet {
    /// Control: the peripheral is enabled.
    pub enable: bool,
    /// Control: the peripheral keeps running in standby.
    pub run_in_standby: bool,
    /// Control: software initialization was triggered.
    pub software_init: bool,
    /// Configuration: mask with the bit of the selected sensing line.
    pub channel_select: u16,
    /// Configuration: mask of the enabled sensing lines.
    pub channel_enable: u16,
    /// Configuration: series resistor.
    pub resistor: Resistor,
    /// Configuration: oversampling factor.
    pub oversampling: Oversampling,
    /// Configuration: frequency spreading is enabled.
    pub frequency_spread: bool,
    /// Configuration: sample delay.
    pub sample_delay: SampleDelay,
    /// Configuration: compare-capacitance trim.
    pub compare_capacitance: u16,
    /// Configuration: internal-capacitance trim.
    pub internal_capacitance: u8,
    /// Configuration: burst-timing byte.
    pub burst_mode: u8,
    /// Configuration: the window-comparator interrupt is enabled.
    pub window_comparator_interrupt: bool,
    /// Configuration: the end-of-conversion interrupt is enabled.
    pub end_of_conversion_interrupt: bool,
    /// Configuration: the byte of the reserved register.
    pub reserved: u8,
    /// Status: the last write is still being synchronized.
    pub sync_busy: bool,
    /// Status: a conversion is in progress.
    pub converting: bool,
    /// Result: the raw count of the last conversion.
    pub result: u16,
}

impl PeripheralRegisterSet {
    /// The register block after `write` has been issued to it: the addressed
    /// field holds its new value, and synchronization of the write is pending.
    pub open spec fn written(self, write: RegisterWrite) -> PeripheralRegisterSet {
        let busy = PeripheralRegisterSet { sync_busy: true, ..self };
        match write {
            RegisterWrite::Enable(on) => PeripheralRegisterSet { enable: on, ..busy },
            RegisterWrite::RunInStandby(on) => PeripheralRegisterSet { run_in_standby: on, ..busy },
            RegisterWrite::SoftwareInit => PeripheralRegisterSet { software_init: true, ..busy },
            RegisterWrite::MaskReserved(mask) => PeripheralRegisterSet {
                reserved: self.reserved & mask,
                ..busy
            },
            RegisterWrite::FrequencyControl { spread, delay } => PeripheralRegisterSet {
                frequency_spread: spread,
                sample_delay: delay,
                ..busy
            },
            RegisterWrite::ClearInterruptEnable(Interrupt::WindowComparator) => PeripheralRegisterSet {
                window_comparator_interrupt: false,
                ..busy
            },
            RegisterWrite::ClearInterruptEnable(Interrupt::EndOfConversion) => PeripheralRegisterSet {
                end_of_conversion_interrupt: false,
                ..busy
            },
            RegisterWrite::ChannelEnable(mask) => PeripheralRegisterSet { channel_enable: mask, ..busy },
            RegisterWrite::SelectChannel(channel) => PeripheralRegisterSet {
                channel_select: channel.line_mask(),
                ..busy
            },
            RegisterWrite::SeriesResistor(resistor) => PeripheralRegisterSet { resistor, ..busy },
            RegisterWrite::Oversample(oversampling) => PeripheralRegisterSet { oversampling, ..busy },
            RegisterWrite::CompareCapacitance(value) => PeripheralRegisterSet {
                compare_capacitance: value,
                ..busy
            },
            RegisterWrite::InternalCapacitance(value) => PeripheralRegisterSet {
                internal_capacitance: value,
                ..busy
            },
            RegisterWrite::BurstMode(value) => PeripheralRegisterSet { burst_mode: value, ..busy },
            RegisterWrite::StartConversion => PeripheralRegisterSet { converting: true, ..busy },
        }
    }

    /// The register block once the pending write has been synchronized.
    pub open spec fn synchronized(self) -> PeripheralRegisterSet {
        PeripheralRegisterSet { sync_busy: false, ..self }
    }

    /// The register block after the writes of `writes` have been issued in
    /// order, each one synchronized before the next.
    pub open spec fn programmed(self, writes: Seq<RegisterWrite>) -> PeripheralRegisterSet
        decreases writes.len(),
    {
        if writes.len() == 0 {
            self
        } else {
            self.programmed(writes.drop_last()).written(writes.last()).synchronized()
        }
    }

    /// A register block with every field zero, off or at its first setting.
    pub fn cleared() -> (registers: PeripheralRegisterSet)
        ensures
            registers == (PeripheralRegisterSet {
                enable: false,
                run_in_standby: false,
                software_init: false,
                channel_select: 0,
                channel_enable: 0,
                resistor: Resistor::Res0,
                oversampling: Oversampling::Oversample1,
                frequency_spread: false,
                sample_delay: SampleDelay::FreqHop1,
                compare_capacitance: 0,
                internal_capacitance: 0,
                burst_mode: 0,
                window_comparator_interrupt: false,
                end_of_conversion_interrupt: false,
                reserved: 0,
                sync_busy: false,
                converting: false,
                result: 0,
            }),
    {
        PeripheralRegisterSet {
            enable: false,
            run_in_standby: false,
            software_init: false,
            channel_select: 0,
            channel_enable: 0,
            resistor: Resistor::Res0,
            oversampling: Oversampling::Oversample1,
            frequency_spread: false,
            sample_delay: SampleDelay::FreqHop1,
            compare_capacitance: 0,
            internal_capacitance: 0,
            burst_mode: 0,
            window_comparator_interrupt: false,
            end_of_conversion_interrupt: false,
            reserved: 0,
            sync_busy: false,
            converting: false,
            result: 0,
        }
    }

    /// Issues `write` to the register block.
    ///
    /// The block must not be synchronizing an earlier write: what the hardware
    /// does with a write issued in that state is undefined.
    pub fn apply(&mut self, write: RegisterWrite)
        requires
            !old(self).sync_busy,
        ensures
            *final(self) == old(self).written(write),
    {
        self.sync_busy = true;
        match write {
            RegisterWrite::Enable(on) => {
                self.enable = on;
            },
            RegisterWrite::RunInStandby(on) => {
                self.run_in_standby = on;
            },
            RegisterWrite::SoftwareInit => {
                self.software_init = true;
            },
            RegisterWrite::MaskReserved(mask) => {
                self.reserved = self.reserved & mask;
            },
            RegisterWrite::FrequencyControl { spread, delay } => {
                self.frequency_spread = spread;
                self.sample_delay = delay;
            },
            RegisterWrite::ClearInterruptEnable(Interrupt::WindowComparator) => {
                self.window_comparator_interrupt = false;
            },
            RegisterWrite::ClearInterruptEnable(Interrupt::EndOfConversion) => {
                self.end_of_conversion_interrupt = false;
            },
            RegisterWrite::ChannelEnable(mask) => {
                self.channel_enable = mask;
            },
            RegisterWrite::SelectChannel(channel) => {
                self.channel_select = channel.mask();
            },
            RegisterWrite::SeriesResistor(resistor) => {
                self.resistor = resistor;
            },
            RegisterWrite::Oversample(oversampling) => {
                self.oversampling = oversampling;
            },
            RegisterWrite::CompareCapacitance(value) => {
                self.compare_capacitance = value;
            },
            RegisterWrite::InternalCapacitance(value) => {
                self.internal_capacitance = value;
            },
            RegisterWrite::BurstMode(value) => {
                self.burst_mode = value;
            },
            RegisterWrite::StartConversion => {
                self.converting = true;
            },
        }
    }
}

/// The register block after the first `count` writes of a program is the
/// block after the first `count - 1`, with write `count - 1` issued and
/// synchronized.
pub proof fn lemma_programmed_prefix(
    registers: PeripheralRegisterSet,
    program: Seq<RegisterWrite>,
    count: int,
)
    requires
        0 < count <= program.len(),
    ensures
        registers.programmed(program.take(count)) == registers.programmed(
            program.take(count - 1),
        ).written(program[count - 1]).synchronized(),
{
    assert(program.take(count).drop_last() =~= program.take(count - 1));
}

/// Every channel has a line of its own: its mask has one bit set, which
/// the masks of the other channels do not have.
pub proof fn lemma_channels_have_their_own_line(channel: Channel, other: Channel)
    requires
        channel.wf(),
        other.wf(),
    ensures
        channel.line_mask() != 0,
        channel.line_mask() == other.line_mask() <==> channel@ == other@,
        channel@ != other@ ==> channel.line_mask() & other.line_mask() == 0,
{
    let i = channel@ as u16;
    let j = other@ as u16;
    assert(i < 16 ==> (1u16 << i) != 0) by (bit_vector);
    assert(i < 16 && j < 16 && i != j ==> (1u16 << i) & (1u16 << j) == 0 && (1u16 << i) != (1u16
        << j)) by (bit_vector);
}

} // verus!
