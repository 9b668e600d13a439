//! Scaled touch samples and the marker values that stand in for them.

use vstd::prelude::*;

verus! {

/// Raw conversion counts are divided by this to give a reading.
pub const SCALE: u16 = 4;

/// The largest reading a conversion can produce.
pub const MAX_SAMPLE: u16 = 16383;

/// The value of the reading that stands for "no sample could be obtained".
pub const INVALID_SENTINEL: u16 = 0xAAAA;

/// The value stored in place of a reading of exactly zero.
pub const ZERO_SENTINEL: u16 = 0xCCCC;

/// A scaled numeric sample from the touch peripheral.
#[derive(Clone, Copy, Debug, PartialEq, Eq, Structural)]
pub struct Reading {
    /// The numeric value of the sample.
    pub value: u16,
}

impl Reading {
    /// Whether the reading can have come out of a conversion, as opposed to
    /// being one of the marker values.
    pub open spec fn is_sample(self) -> bool {
        self.value <= MAX_SAMPLE
    }

    /// The reading a raw conversion count scales to.
    pub open spec fn scaled(raw_count: u16) -> Reading {
        Reading { value: raw_count / SCALE }
    }

    /// The marker for a sample that could not be obtained.
    pub open spec fn invalid_marker() -> Reading {
        Reading { value: INVALID_SENTINEL }
    }

    /// The reading that a read attempt amounts to: the scaled count where
    /// there is one, the invalid marker where there is none.
    pub open spec fn of_attempt(raw_count: Option<u16>) -> Reading {
        match raw_count {
            Some(raw) => Reading::scaled(raw),
            None => Reading::invalid_marker(),
        }
    }

    /// A reading with the given numeric value.
    pub fn new(value: u16) -> (r: Reading)
        ensures
            r.value == value,
    {
        Reading { value }
    }

    /// Scales a raw conversion count to a reading: the count divided by four,
    /// rounded down.
    pub fn from_raw(raw_count: u16) -> (r: Reading)
        ensures
            r == Reading::scaled(raw_count),
            r.value == raw_count / 4,
            r.is_sample(),
    {
        Reading { value: raw_count / SCALE }
    }

    /// The marker reading returned when no sample could be obtained.
    pub fn invalid() -> (r: Reading)
        ensures
            r == Reading::invalid_marker(),
            r.value == 0xAAAA,
            !r.is_sample(),
    {
        Reading { value: INVALID_SENTINEL }
    }

    /// Turns the outcome of a read attempt into a reading, substituting the
    /// invalid marker where the attempt gave no count.
    pub fn from_attempt(raw_count: Option<u16>) -> (r: Reading)
        ensures
            r == Reading::of_attempt(raw_count),
            raw_count is Some <==> r.is_sample(),
    {
        match raw_count {
            Some(raw) => Reading::from_raw(raw),
            None => Reading::invalid(),
        }
    }

    /// Whether this reading can have come out of a conversion.
    pub fn is_valid_sample(&self) -> (valid: bool)
        ensures
            valid == self.is_sample(),
    {
        self.value <= MAX_SAMPLE
    }
}

} // verus!
