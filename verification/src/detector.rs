//! Touch detection against a threshold taken from the first reading.

use crate::configurator::SamplingMode;
use crate::reading::Reading;
use vstd::prelude::*;

verus! {

/// Margin above the baseline used with steady-state sampling.
pub const MARGIN_STEADY: u16 = 100;

/// Margin above the baseline used with defensive sampling.
pub const MARGIN_DEFENSIVE: u16 = 200;

/// Whether the sensor is being touched.
#[derive(Clone, Copy, Debug, PartialEq, Eq, Structural)]
pub enum TouchState {
    Touched,
    Untouched,
}

/// The state of a detector: its margin and, once a reading has been
/// classified, the baseline.
pub struct DetectorState {
    /// The fixed margin between the baseline and the threshold.
    pub margin: u16,
    /// The first reading that was classified, if there was one yet.
    pub baseline: Option<Reading>,
}

impl DetectorState {
    /// The threshold: baseline plus margin, once there is a baseline.
    pub open spec fn threshold(self) -> Option<int> {
        match self.baseline {
            Some(baseline) => Some(baseline.value + self.margin),
            None => None,
        }
    }

    /// How `reading` is classified in this state: untouched while there is no
    /// baseline, and after that touched exactly if the reading lies strictly
    /// above the threshold.
    pub open spec fn classification(self, reading: Reading) -> TouchState {
        match self.threshold() {
            Some(threshold) => if reading.value > threshold {
                TouchState::Touched
            } else {
                TouchState::Untouched
            },
            None => TouchState::Untouched,
        }
    }

    /// The state after `reading` has been classified: the first reading
    /// becomes the baseline, and later ones change nothing.
    pub open spec fn after(self, reading: Reading) -> DetectorState {
        match self.baseline {
            Some(_) => self,
            None => DetectorState { baseline: Some(reading), ..self },
        }
    }

    /// The state after the readings of `readings` have been classified in
    /// order.
    pub open spec fn after_all(self, readings: Seq<Reading>) -> DetectorState
        decreases readings.len(),
    {
        if readings.len() == 0 {
            self
        } else {
            self.after_all(readings.drop_last()).after(readings.last())
        }
    }
}

/// Captures a baseline from the first reading and classifies the readings
/// after it as touched or untouched. There is no hysteresis and no
/// debouncing.
pub struct ThresholdDetector {
    margin: u16,
    baseline: Option<Reading>,
}

impl View for ThresholdDetector {
    type V = DetectorState;

    closed spec fn view(&self) -> DetectorState {
        DetectorState { margin: self.margin, baseline: self.baseline }
    }
}

impl ThresholdDetector {
    /// The margin that goes with a sampling mode.
    pub open spec fn reference_margin(mode: SamplingMode) -> u16 {
        match mode {
            SamplingMode::SteadyState => MARGIN_STEADY,
            SamplingMode::Defensive => MARGIN_DEFENSIVE,
        }
    }

    /// A detector without a baseline that will put its threshold `margin`
    /// above the first reading.
    pub fn new(margin: u16) -> (detector: ThresholdDetector)
        ensures
            detector@ == (DetectorState { margin, baseline: None }),
    {
        ThresholdDetector { margin, baseline: None }
    }

    /// A detector without a baseline and with the margin that goes with
    /// `mode`: 100 in steady state, 200 in defensive mode.
    pub fn reference(mode: SamplingMode) -> (detector: ThresholdDetector)
        ensures
            detector@ == (DetectorState {
                margin: ThresholdDetector::reference_margin(mode),
                baseline: None,
            }),
    {
        let margin: u16 = match mode {
            SamplingMode::SteadyState => MARGIN_STEADY,
            SamplingMode::Defensive => MARGIN_DEFENSIVE,
        };
        ThresholdDetector { margin, baseline: None }
    }

    /// Classifies `reading`. The first reading given becomes the baseline
    /// and counts as untouched. Every later reading is touched exactly if it
    /// lies strictly above baseline plus margin; baseline and margin stay as
    /// they are.
    pub fn classify(&mut self, reading: Reading) -> (state: TouchState)
        ensures
            state == old(self)@.classification(reading),
            final(self)@ == old(self)@.after(reading),
            old(self)@.baseline is None ==> state == TouchState::Untouched,
            old(self)@.baseline matches Some(baseline) ==> (state == TouchState::Touched
                <==> reading.value > baseline.value + old(self)@.margin),
    {
        match self.baseline {
            None => {
                self.baseline = Some(reading);
                TouchState::Untouched
            },
            Some(baseline) => {
                let threshold: u32 = baseline.value as u32 + self.margin as u32;
                if reading.value as u32 > threshold {
                    TouchState::Touched
                } else {
                    TouchState::Untouched
                }
            },
        }
    }

    /// The margin between the baseline and the threshold.
    pub fn margin(&self) -> (margin: u16)
        ensures
            margin == self@.margin,
    {
        self.margin
    }

    /// The baseline, once a reading has been classified.
    pub fn baseline(&self) -> (baseline: Option<Reading>)
        ensures
            baseline == self@.baseline,
    {
        self.baseline
    }

    /// The threshold, once a reading has been classified: baseline plus
    /// margin.
    pub fn threshold(&self) -> (threshold: Option<u32>)
        ensures
            threshold is Some <==> self@.threshold() is Some,
            threshold matches Some(t) ==> self@.threshold() == Some(t as int),
    {
        match self.baseline {
            Some(baseline) => Some(baseline.value as u32 + self.margin as u32),
            None => None,
        }
    }
}

/// Once a detector has classified its first reading, its threshold is that
/// reading plus the margin, and it stays so whatever is classified after.
pub proof fn lemma_threshold_is_fixed_by_first_reading(
    start: DetectorState,
    first: Reading,
    later: Seq<Reading>,
)
    requires
        start.baseline is None,
    ensures
        start.after(first).after_all(later).margin == start.margin,
        start.after(first).after_all(later).baseline == Some(first),
        start.after(first).after_all(later).threshold() == Some(first.value + start.margin),
    decreases later.len(),
{
    if later.len() > 0 {
        lemma_threshold_is_fixed_by_first_reading(start, first, later.drop_last());
    }
}

} // verus!
