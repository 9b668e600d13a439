//! The drivers run against a simulated peripheral that records every
//! exchange and notes each write that arrives while the
//! synchronization-busy flag is raised.

use touch_sense::configurator::{SamplingMode, TouchConfigurator, TouchParams, ALL_LINES};
use touch_sense::driver::{Lifecycle, TouchDriver};
use touch_sense::measurement::{ConversionPhase, MeasurementEngine};
use touch_sense::protocol::{Action, Event};
use touch_sense::reading::Reading;
use touch_sense::registers::{
    Channel, Interrupt, Oversampling, PeripheralRegisterSet, RegisterWrite, Resistor, SampleDelay,
};
use touch_sense::sequencer::RegisterSequencer;

struct Simulated {
    registers: PeripheralRegisterSet,
    sync_polls: u32,
    sync_left: u32,
    conversion_polls: u32,
    conversion_left: u32,
    raw: Option<u16>,
    log: Vec<(Action, Event)>,
    violations: u32,
}

impl Simulated {
    fn new(sync_polls: u32, conversion_polls: u32, raw: Option<u16>) -> Simulated {
        let mut registers = PeripheralRegisterSet::cleared();
        registers.reserved = 0xFF;
        registers.window_comparator_interrupt = true;
        registers.end_of_conversion_interrupt = true;
        Simulated {
            registers,
            sync_polls,
            sync_left: 0,
            conversion_polls,
            conversion_left: 0,
            raw,
            log: Vec::new(),
            violations: 0,
        }
    }

    fn raise_flag(&mut self) {
        self.registers.sync_busy = true;
        self.sync_left = self.sync_polls;
    }

    fn perform(&mut self, action: Action) -> Option<Event> {
        let event = match action {
            Action::Write(write) => {
                if self.registers.sync_busy {
                    self.violations += 1;
                } else {
                    self.registers.apply(write);
                    self.sync_left = self.sync_polls;
                    if write == RegisterWrite::StartConversion {
                        self.conversion_left = self.conversion_polls;
                    }
                }
                Event::Written
            }
            Action::PollSync => {
                if self.sync_left == 0 {
                    self.registers.sync_busy = false;
                } else {
                    self.sync_left -= 1;
                }
                Event::SyncFlag { busy: self.registers.sync_busy }
            }
            Action::PollConversion => {
                if self.conversion_left == 0 {
                    if self.registers.converting {
                        self.registers.converting = false;
                        self.registers.result = self.raw.unwrap_or(0);
                        self.registers.sync_busy = true;
                        self.sync_left = self.sync_polls;
                    }
                } else {
                    self.conversion_left -= 1;
                }
                Event::ConversionFlag { converting: self.registers.converting }
            }
            Action::ReadResult => Event::RawResult { raw: self.raw },
            Action::Idle => return None,
        };
        self.log.push((action, event));
        Some(event)
    }

    fn writes(&self) -> Vec<RegisterWrite> {
        let mut writes = Vec::new();
        for (action, _) in &self.log {
            if let Action::Write(write) = action {
                writes.push(*write);
            }
        }
        writes
    }

    fn log_is_disciplined(&self, initially_raised: bool) -> bool {
        let mut outstanding = initially_raised;
        for (action, event) in &self.log {
            match (action, event) {
                (Action::Write(_), _) => {
                    if outstanding {
                        return false;
                    }
                    outstanding = true;
                }
                (Action::PollSync, Event::SyncFlag { busy: false }) => outstanding = false,
                _ => {}
            }
        }
        true
    }
}

fn run_sequencer(peripheral: &mut Simulated, sequencer: &mut RegisterSequencer) {
    let mut rounds = 0;
    while let Some(event) = peripheral.perform(sequencer.pending()) {
        sequencer.observe(event);
        rounds += 1;
        assert!(rounds < 10_000);
    }
}

fn run_driver(peripheral: &mut Simulated, driver: &mut TouchDriver) -> Option<Reading> {
    let mut rounds = 0;
    while let Some(event) = peripheral.perform(driver.pending()) {
        if let Some(reading) = driver.observe(event) {
            return Some(reading);
        }
        rounds += 1;
        assert!(rounds < 10_000);
    }
    None
}

fn channel(index: u8) -> Channel {
    Channel::new(index).unwrap()
}

fn configuration_writes(params: &TouchParams) -> Vec<RegisterWrite> {
    vec![
        RegisterWrite::Enable(false),
        RegisterWrite::MaskReserved(0xF7),
        RegisterWrite::MaskReserved(0xFB),
        RegisterWrite::MaskReserved(0xFC),
        RegisterWrite::FrequencyControl {
            spread: params.frequency_spread,
            delay: params.sample_delay,
        },
        RegisterWrite::SoftwareInit,
        RegisterWrite::RunInStandby(true),
        RegisterWrite::ClearInterruptEnable(Interrupt::WindowComparator),
        RegisterWrite::ClearInterruptEnable(Interrupt::EndOfConversion),
        RegisterWrite::ChannelEnable(0xFFFF),
        RegisterWrite::Enable(true),
    ]
}

fn defensive_writes(params: &TouchParams, channel: Channel) -> Vec<RegisterWrite> {
    vec![
        RegisterWrite::SelectChannel(channel),
        RegisterWrite::SeriesResistor(params.resistor),
        RegisterWrite::Oversample(params.oversampling),
        RegisterWrite::FrequencyControl {
            spread: params.frequency_spread,
            delay: params.sample_delay,
        },
        RegisterWrite::CompareCapacitance(params.compare_capacitance),
        RegisterWrite::InternalCapacitance(params.internal_capacitance),
        RegisterWrite::BurstMode(params.burst_mode),
        RegisterWrite::StartConversion,
    ]
}

#[test]
fn write_and_sync_writes_then_polls_until_the_flag_clears() {
    let mut peripheral = Simulated::new(3, 0, None);
    let mut sequencer = RegisterSequencer::write_and_sync(RegisterWrite::BurstMode(0xA4));
    assert!(!sequencer.is_complete());
    run_sequencer(&mut peripheral, &mut sequencer);
    assert!(sequencer.is_complete());
    assert_eq!(
        peripheral.log,
        vec![
            (Action::Write(RegisterWrite::BurstMode(0xA4)), Event::Written),
            (Action::PollSync, Event::SyncFlag { busy: true }),
            (Action::PollSync, Event::SyncFlag { busy: true }),
            (Action::PollSync, Event::SyncFlag { busy: true }),
            (Action::PollSync, Event::SyncFlag { busy: false }),
        ]
    );
    assert_eq!(peripheral.registers.burst_mode, 0xA4);
    assert_eq!(peripheral.violations, 0);
}

#[test]
fn sequencer_keeps_polling_a_flag_that_stays_raised() {
    let mut sequencer = RegisterSequencer::write_and_sync(RegisterWrite::SoftwareInit);
    assert_eq!(sequencer.pending(), Action::Write(RegisterWrite::SoftwareInit));
    sequencer.observe(Event::Written);
    for _ in 0..1000 {
        assert_eq!(sequencer.pending(), Action::PollSync);
        sequencer.observe(Event::SyncFlag { busy: true });
        assert!(!sequencer.is_complete());
    }
    sequencer.observe(Event::SyncFlag { busy: false });
    assert_eq!(sequencer.pending(), Action::Idle);
    assert!(sequencer.is_complete());
}

#[test]
fn sequencer_ignores_events_that_do_not_answer_its_action() {
    let mut sequencer = RegisterSequencer::new(vec![
        RegisterWrite::Enable(false),
        RegisterWrite::Enable(true),
    ]);
    sequencer.observe(Event::SyncFlag { busy: false });
    sequencer.observe(Event::ConversionFlag { converting: false });
    sequencer.observe(Event::RawResult { raw: Some(7) });
    assert_eq!(sequencer.pending(), Action::Write(RegisterWrite::Enable(false)));
    sequencer.observe(Event::Written);
    sequencer.observe(Event::Written);
    sequencer.observe(Event::ConversionFlag { converting: false });
    sequencer.observe(Event::RawResult { raw: None });
    assert_eq!(sequencer.pending(), Action::PollSync);
    sequencer.observe(Event::SyncFlag { busy: false });
    assert_eq!(sequencer.pending(), Action::Write(RegisterWrite::Enable(true)));
}

#[test]
fn empty_program_is_complete_at_once() {
    let sequencer = RegisterSequencer::new(Vec::new());
    assert!(sequencer.is_complete());
    assert_eq!(sequencer.pending(), Action::Idle);
    let waiting = RegisterSequencer::after_sync(Vec::new());
    assert!(!waiting.is_complete());
    assert_eq!(waiting.pending(), Action::PollSync);
}

#[test]
fn no_write_is_issued_while_the_flag_is_raised() {
    for sync_polls in [0, 1, 2, 7] {
        for conversion_polls in [0, 1, 5] {
            for mode in [SamplingMode::SteadyState, SamplingMode::Defensive] {
                let mut peripheral = Simulated::new(sync_polls, conversion_polls, Some(1234));
                peripheral.raise_flag();
                let mut driver = TouchDriver::new(TouchParams::reference(mode), mode, channel(3));
                assert!(driver.initialize());
                assert_eq!(run_driver(&mut peripheral, &mut driver), None);
                assert_eq!(driver.lifecycle(), Lifecycle::Idle);
                for _ in 0..3 {
                    assert_eq!(driver.measure(), None);
                    assert_eq!(
                        run_driver(&mut peripheral, &mut driver),
                        Some(Reading::new(308))
                    );
                }
                assert_eq!(peripheral.violations, 0);
                assert!(peripheral.log_is_disciplined(true));
            }
        }
    }
}

#[test]
fn harness_notices_a_write_that_does_not_wait() {
    let mut peripheral = Simulated::new(2, 0, None);
    peripheral.perform(Action::Write(RegisterWrite::Enable(false)));
    peripheral.perform(Action::PollSync);
    peripheral.perform(Action::Write(RegisterWrite::Enable(true)));
    assert_eq!(peripheral.violations, 1);
    assert!(!peripheral.log_is_disciplined(false));
}

#[test]
fn configure_issues_the_steps_in_order() {
    let params = TouchParams::reference(SamplingMode::Defensive);
    let mut peripheral = Simulated::new(1, 0, None);
    peripheral.raise_flag();
    let mut sequencer = TouchConfigurator::new(params).configure();
    assert_eq!(sequencer.pending(), Action::PollSync);
    run_sequencer(&mut peripheral, &mut sequencer);
    assert!(sequencer.is_complete());
    assert_eq!(peripheral.writes(), configuration_writes(&params));
    assert_eq!(peripheral.violations, 0);
    assert!(peripheral.log_is_disciplined(true));
    assert_eq!(peripheral.log.len(), 2 + 11 * 3);
}

#[test]
fn configure_leaves_the_peripheral_enabled_and_set_up() {
    let params = TouchParams {
        resistor: Resistor::Res100K,
        oversampling: Oversampling::Oversample64,
        frequency_spread: true,
        sample_delay: SampleDelay::FreqHop9,
        compare_capacitance: 0x1234,
        internal_capacitance: 0x11,
        burst_mode: 0x22,
    };
    let mut peripheral = Simulated::new(0, 0, None);
    let before = peripheral.registers;
    let mut sequencer = TouchConfigurator::new(params).configure();
    run_sequencer(&mut peripheral, &mut sequencer);
    let mut expected = before;
    expected.enable = true;
    expected.run_in_standby = true;
    expected.software_init = true;
    expected.window_comparator_interrupt = false;
    expected.end_of_conversion_interrupt = false;
    expected.channel_enable = ALL_LINES;
    expected.frequency_spread = true;
    expected.sample_delay = SampleDelay::FreqHop9;
    expected.reserved = 0xF0;
    assert_eq!(peripheral.registers, expected);
}

#[test]
fn configure_writes_to_a_disabled_peripheral() {
    let params = TouchParams::reference(SamplingMode::SteadyState);
    let mut peripheral = Simulated::new(0, 0, None);
    peripheral.registers.enable = true;
    let mut sequencer = TouchConfigurator::new(params).configure();
    let mut writes = 0;
    while let Some(event) = peripheral.perform(sequencer.pending()) {
        if event == Event::Written {
            writes += 1;
            assert_eq!(peripheral.registers.enable, writes == 11);
        }
        sequencer.observe(event);
    }
    assert_eq!(writes, 11);
}

#[test]
fn defensive_measure_reprograms_then_converts() {
    let params = TouchParams::reference(SamplingMode::Defensive);
    let engine = MeasurementEngine::new(params, SamplingMode::Defensive);
    let mut peripheral = Simulated::new(1, 2, Some(400));
    let mut request = engine.measure(channel(3));
    assert_eq!(request.phase(), ConversionPhase::Configuring);
    assert_eq!(request.channel(), channel(3));
    while let Some(event) = peripheral.perform(request.pending()) {
        request.observe(event);
    }
    assert!(request.is_finished());
    assert_eq!(request.phase(), ConversionPhase::Complete(400));
    assert_eq!(peripheral.writes(), defensive_writes(&params, channel(3)));
    let tail: Vec<(Action, Event)> = peripheral.log[peripheral.log.len() - 6..].to_vec();
    assert_eq!(
        tail,
        vec![
            (Action::PollConversion, Event::ConversionFlag { converting: true }),
            (Action::PollConversion, Event::ConversionFlag { converting: true }),
            (Action::PollConversion, Event::ConversionFlag { converting: false }),
            (Action::PollSync, Event::SyncFlag { busy: true }),
            (Action::PollSync, Event::SyncFlag { busy: false }),
            (Action::ReadResult, Event::RawResult { raw: Some(400) }),
        ]
    );
    assert_eq!(request.finish(), Reading::new(100));
    assert_eq!(peripheral.registers.channel_select, 1 << 3);
    assert_eq!(peripheral.registers.resistor, Resistor::Res50K);
    assert_eq!(peripheral.registers.oversampling, Oversampling::Oversample4);
    assert_eq!(peripheral.registers.compare_capacitance, 0x3000);
    assert_eq!(peripheral.registers.internal_capacitance, 0x3F);
    assert_eq!(peripheral.registers.burst_mode, 0xA4);
    assert_eq!(peripheral.violations, 0);
}

#[test]
fn steady_state_selects_once_and_then_only_converts() {
    let params = TouchParams::reference(SamplingMode::SteadyState);
    let engine = MeasurementEngine::new(params, SamplingMode::SteadyState);
    assert_eq!(engine.parameters(), params);
    assert_eq!(engine.sampling_mode(), SamplingMode::SteadyState);
    let mut peripheral = Simulated::new(0, 0, Some(8));
    let mut setup = engine.setup(channel(5));
    run_sequencer(&mut peripheral, &mut setup);
    assert_eq!(peripheral.writes(), vec![RegisterWrite::SelectChannel(channel(5))]);
    for _ in 0..2 {
        let mut request = engine.measure(channel(5));
        while let Some(event) = peripheral.perform(request.pending()) {
            request.observe(event);
        }
        assert_eq!(request.finish(), Reading::new(2));
    }
    assert_eq!(
        peripheral.writes(),
        vec![
            RegisterWrite::SelectChannel(channel(5)),
            RegisterWrite::StartConversion,
            RegisterWrite::StartConversion,
        ]
    );
    let defensive = MeasurementEngine::new(params, SamplingMode::Defensive);
    assert!(defensive.setup(channel(5)).is_complete());
}

#[test]
fn measure_divides_the_raw_count_by_four() {
    for (raw, scaled) in [(0u16, 0u16), (3, 0), (4, 1), (5, 1), (1000, 250), (65535, 16383)] {
        for mode in [SamplingMode::SteadyState, SamplingMode::Defensive] {
            let engine = MeasurementEngine::new(TouchParams::reference(mode), mode);
            let mut peripheral = Simulated::new(1, 1, Some(raw));
            let mut request = engine.measure(channel(0));
            while let Some(event) = peripheral.perform(request.pending()) {
                request.observe(event);
            }
            assert_eq!(request.finish(), Reading::new(scaled));
        }
    }
}

#[test]
fn measure_gives_the_invalid_marker_when_no_count_can_be_read() {
    let engine = MeasurementEngine::new(
        TouchParams::reference(SamplingMode::Defensive),
        SamplingMode::Defensive,
    );
    let mut peripheral = Simulated::new(0, 0, None);
    let mut request = engine.measure(channel(1));
    while let Some(event) = peripheral.perform(request.pending()) {
        request.observe(event);
    }
    assert_eq!(request.phase(), ConversionPhase::Failed);
    assert_eq!(request.finish(), Reading::new(0xAAAA));
}

#[test]
fn unfinished_request_amounts_to_the_invalid_marker() {
    let engine = MeasurementEngine::new(
        TouchParams::reference(SamplingMode::SteadyState),
        SamplingMode::SteadyState,
    );
    let request = engine.measure(channel(1));
    assert!(!request.is_finished());
    assert_eq!(request.finish(), Reading::new(0xAAAA));
}

#[test]
fn conversion_is_polled_for_as_long_as_it_takes() {
    let engine = MeasurementEngine::new(
        TouchParams::reference(SamplingMode::SteadyState),
        SamplingMode::SteadyState,
    );
    let mut request = engine.measure(channel(2));
    request.observe(Event::Written);
    request.observe(Event::SyncFlag { busy: false });
    assert_eq!(request.phase(), ConversionPhase::Converting);
    for _ in 0..1000 {
        assert_eq!(request.pending(), Action::PollConversion);
        request.observe(Event::ConversionFlag { converting: true });
    }
    request.observe(Event::SyncFlag { busy: false });
    request.observe(Event::RawResult { raw: Some(1) });
    assert_eq!(request.phase(), ConversionPhase::Converting);
    request.observe(Event::ConversionFlag { converting: false });
    assert_eq!(request.phase(), ConversionPhase::Settling);
    assert_eq!(request.pending(), Action::PollSync);
    request.observe(Event::SyncFlag { busy: true });
    assert_eq!(request.phase(), ConversionPhase::Settling);
    request.observe(Event::SyncFlag { busy: false });
    assert_eq!(request.phase(), ConversionPhase::Fetching);
    assert_eq!(request.pending(), Action::ReadResult);
    request.observe(Event::RawResult { raw: Some(65535) });
    assert_eq!(request.phase(), ConversionPhase::Complete(65535));
    assert_eq!(request.pending(), Action::Idle);
    request.observe(Event::RawResult { raw: Some(1) });
    assert_eq!(request.finish(), Reading::new(16383));
}

#[test]
fn driver_goes_through_the_lifecycle() {
    let mode = SamplingMode::SteadyState;
    let params = TouchParams::reference(mode);
    let mut peripheral = Simulated::new(1, 1, Some(40));
    let mut driver = TouchDriver::new(params, mode, channel(3));
    assert_eq!(driver.lifecycle(), Lifecycle::Disabled);
    assert_eq!(driver.pending(), Action::Idle);
    assert_eq!(driver.measure(), Some(Reading::new(0xAAAA)));
    assert_eq!(driver.lifecycle(), Lifecycle::Disabled);
    assert_eq!(driver.observe(Event::SyncFlag { busy: false }), None);
    assert_eq!(driver.lifecycle(), Lifecycle::Disabled);

    assert!(driver.initialize());
    assert_eq!(driver.lifecycle(), Lifecycle::Initializing);
    assert!(!driver.initialize());
    assert_eq!(driver.measure(), Some(Reading::new(0xAAAA)));
    assert_eq!(driver.lifecycle(), Lifecycle::Initializing);
    assert_eq!(run_driver(&mut peripheral, &mut driver), None);
    assert_eq!(driver.lifecycle(), Lifecycle::Idle);
    let mut expected = configuration_writes(&params);
    expected.push(RegisterWrite::SelectChannel(channel(3)));
    assert_eq!(peripheral.writes(), expected);

    assert!(!driver.initialize());
    assert_eq!(driver.measure(), None);
    assert_eq!(driver.lifecycle(), Lifecycle::Measuring);
    assert_eq!(driver.measure(), Some(Reading::new(0xAAAA)));
    assert_eq!(driver.lifecycle(), Lifecycle::Measuring);
    assert_eq!(run_driver(&mut peripheral, &mut driver), Some(Reading::new(10)));
    assert_eq!(driver.lifecycle(), Lifecycle::Idle);
    expected.push(RegisterWrite::StartConversion);
    assert_eq!(peripheral.writes(), expected);
    assert_eq!(peripheral.violations, 0);
}

#[test]
fn defensive_driver_has_no_setup_and_reprograms_each_sample() {
    let mode = SamplingMode::Defensive;
    let params = TouchParams::reference(mode);
    let mut peripheral = Simulated::new(0, 0, None);
    let mut driver = TouchDriver::new(params, mode, channel(15));
    assert!(driver.initialize());
    assert_eq!(run_driver(&mut peripheral, &mut driver), None);
    assert_eq!(driver.lifecycle(), Lifecycle::Idle);
    assert_eq!(peripheral.writes(), configuration_writes(&params));
    assert_eq!(driver.measure(), None);
    assert_eq!(run_driver(&mut peripheral, &mut driver), Some(Reading::new(0xAAAA)));
    assert_eq!(driver.lifecycle(), Lifecycle::Idle);
    let mut expected = configuration_writes(&params);
    expected.extend(defensive_writes(&params, channel(15)));
    assert_eq!(peripheral.writes(), expected);
    assert_eq!(peripheral.registers.channel_select, 0x8000);
}

#[test]
fn unhindered_peripheral_takes_two_rounds_a_write() {
    let params = TouchParams::reference(SamplingMode::Defensive);
    let mut peripheral = Simulated::new(0, 0, Some(4));
    let mut sequencer = TouchConfigurator::new(params).configure();
    run_sequencer(&mut peripheral, &mut sequencer);
    assert_eq!(peripheral.log.len(), 1 + 2 * 11);

    let mut peripheral = Simulated::new(0, 0, Some(4));
    let mut sequencer = RegisterSequencer::new(defensive_writes(&params, channel(0)));
    run_sequencer(&mut peripheral, &mut sequencer);
    assert_eq!(peripheral.log.len(), 2 * 8);

    let engine = MeasurementEngine::new(params, SamplingMode::Defensive);
    let mut peripheral = Simulated::new(0, 0, Some(4));
    let mut request = engine.measure(channel(0));
    let mut rounds = 0;
    while let Some(event) = peripheral.perform(request.pending()) {
        assert!(!request.is_finished());
        request.observe(event);
        rounds += 1;
    }
    assert_eq!(rounds, 2 * 8 + 3);
    assert_eq!(request.finish(), Reading::new(1));

    let steady = MeasurementEngine::new(params, SamplingMode::SteadyState);
    let mut peripheral = Simulated::new(0, 0, None);
    let mut request = steady.measure(channel(0));
    let mut rounds = 0;
    while let Some(event) = peripheral.perform(request.pending()) {
        request.observe(event);
        rounds += 1;
    }
    assert_eq!(rounds, 2 + 3);
    assert_eq!(request.finish(), Reading::invalid());
}

#[test]
fn every_write_is_kept_apart_from_the_one_before() {
    let mode = SamplingMode::Defensive;
    let mut peripheral = Simulated::new(4, 3, Some(99));
    peripheral.raise_flag();
    let mut driver = TouchDriver::new(TouchParams::reference(mode), mode, channel(7));
    driver.initialize();
    run_driver(&mut peripheral, &mut driver);
    driver.measure();
    run_driver(&mut peripheral, &mut driver);
    let log = &peripheral.log;
    let writes: Vec<usize> = (0..log.len())
        .filter(|&i| matches!(log[i].0, Action::Write(_)))
        .collect();
    assert_eq!(writes.len(), 11 + 8);
    let clear = (Action::PollSync, Event::SyncFlag { busy: false });
    assert!(log[..writes[0]].contains(&clear));
    for pair in writes.windows(2) {
        assert!(log[pair[0] + 1..pair[1]].contains(&clear));
        assert_eq!(log[pair[1] - 1], clear);
    }
}

#[test]
fn unhindered_driver_is_idle_after_the_rounds_its_writes_take() {
    for (mode, setup_writes, sample_writes) in
        [(SamplingMode::SteadyState, 1, 1), (SamplingMode::Defensive, 0, 8)]
    {
        let mut peripheral = Simulated::new(0, 0, Some(20));
        let mut driver = TouchDriver::new(TouchParams::reference(mode), mode, channel(9));
        assert!(driver.initialize());
        let mut rounds = 0;
        while driver.lifecycle() == Lifecycle::Initializing {
            let event = peripheral.perform(driver.pending()).unwrap();
            assert_eq!(driver.observe(event), None);
            rounds += 1;
        }
        assert_eq!(rounds, 1 + 2 * 11 + 2 * setup_writes);
        assert_eq!(driver.lifecycle(), Lifecycle::Idle);

        assert_eq!(driver.measure(), None);
        let mut rounds = 0;
        let mut delivered = None;
        while driver.lifecycle() == Lifecycle::Measuring {
            let event = peripheral.perform(driver.pending()).unwrap();
            delivered = driver.observe(event);
            rounds += 1;
        }
        assert_eq!(rounds, 2 * sample_writes + 3);
        assert_eq!(delivered, Some(Reading::new(5)));
    }
}
