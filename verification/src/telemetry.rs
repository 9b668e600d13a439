//! The latest reading, shared between the measuring loop and the transport
//! handler, and the textual report the handler answers with.
//!
//! The measuring loop writes through `&mut`, the handler reads through `&`:
//! whoever shares a channel between the two contexts has to give each access
//! exclusive use of it for its duration, so that the handler never sees a
//! reading that is half written.

use crate::decimal::{decimal, lemma_decimal_len, push_decimal};
use crate::detector::TouchState;
use crate::reading::{Reading, ZERO_SENTINEL};
use vstd::prelude::*;

verus! {

/// Size of the buffer a report has to fit in, newline included.
pub const REPORT_CAPACITY: usize = 16;

/// The byte that ends a report.
pub const NEWLINE: u8 = 10;

/// What the two contexts share.
#[derive(Clone, Copy, Debug, PartialEq, Eq, Structural)]
pub struct SharedTelemetryState {
    /// The latest reading in its stored form, or zero while there is none.
    /// Produced by the measuring loop, consumed by the transport handler.
    pub reading: Reading,
    /// Whether the latest sample was classified as touched. Produced by the
    /// measuring loop, consumed by the transport handler.
    pub touched: bool,
}

/// The form a reading is stored in: a reading of exactly zero is replaced by
/// the zero marker, so that a stored zero can only mean "no value yet".
pub open spec fn stored_form(reading: Reading) -> Reading {
    if reading.value == 0 {
        Reading { value: ZERO_SENTINEL }
    } else {
        reading
    }
}

/// The report for a reading: its value as decimal text, followed by a
/// newline.
pub open spec fn report(reading: Reading) -> Seq<u8> {
    decimal(reading.value as nat).push(NEWLINE)
}

/// The report for a reading where it fits into `capacity` bytes, and nothing
/// where it does not.
pub open spec fn encoded(reading: Reading, capacity: nat) -> Option<Seq<u8>> {
    if report(reading).len() <= capacity {
        Some(report(reading))
    } else {
        None
    }
}

impl SharedTelemetryState {
    /// The state before anything was published: a reading of zero, not
    /// touched.
    pub open spec fn initial() -> SharedTelemetryState {
        SharedTelemetryState { reading: Reading { value: 0 }, touched: false }
    }

    /// The state after `reading` has been published.
    pub open spec fn published(self, reading: Reading) -> SharedTelemetryState {
        SharedTelemetryState { reading: stored_form(reading), ..self }
    }

    /// The state after the readings of `readings` have been published in
    /// order.
    pub open spec fn published_all(self, readings: Seq<Reading>) -> SharedTelemetryState
        decreases readings.len(),
    {
        if readings.len() == 0 {
            self
        } else {
            self.published_all(readings.drop_last()).published(readings.last())
        }
    }

    /// What is written back to the transport after `inbound` bytes have come
    /// in: nothing where none came in, and otherwise the report for the
    /// stored reading, unless it does not fit the report buffer.
    pub open spec fn response(self, inbound: nat) -> Option<Seq<u8>> {
        if inbound == 0 {
            None
        } else {
            encoded(self.reading, REPORT_CAPACITY as nat)
        }
    }
}

/// Formats the report for `reading` and returns it if it is no longer than
/// `capacity` bytes, newline included. A report that would be longer is
/// dropped.
pub fn encode_report(reading: Reading, capacity: usize) -> (out: Option<Vec<u8>>)
    ensures
        out is Some <==> report(reading).len() <= capacity,
        out matches Some(bytes) ==> bytes@ == report(reading),
{
    let mut bytes: Vec<u8> = Vec::new();
    push_decimal(&mut bytes, reading.value);
    bytes.push(NEWLINE);
    assert(bytes@ =~= report(reading));
    if bytes.len() <= capacity {
        Some(bytes)
    } else {
        None
    }
}

/// Holds the latest reading for the transport handler.
pub struct TelemetryChannel {
    state: SharedTelemetryState,
}

impl View for TelemetryChannel {
    type V = SharedTelemetryState;

    closed spec fn view(&self) -> SharedTelemetryState {
        self.state
    }
}

impl TelemetryChannel {
    /// A channel on which nothing has been published yet.
    pub fn new() -> (channel: TelemetryChannel)
        ensures
            channel@ == SharedTelemetryState::initial(),
    {
        TelemetryChannel { state: SharedTelemetryState { reading: Reading { value: 0 }, touched: false } }
    }

    /// Stores `reading` as the latest reading, in its stored form: a reading
    /// of exactly zero is stored as the zero marker 0xCCCC, every other
    /// reading as it is. The touched flag stays as it was.
    pub fn publish(&mut self, reading: Reading)
        ensures
            final(self)@ == old(self)@.published(reading),
            final(self)@.reading.value != 0,
            reading.value == 0 ==> final(self)@.reading.value == 0xCCCC,
            reading.value != 0 ==> final(self)@.reading == reading,
    {
        if reading.value == 0 {
            self.state.reading = Reading { value: ZERO_SENTINEL };
        } else {
            self.state.reading = reading;
        }
    }

    /// Stores `reading` as [`publish`](Self::publish) does and, in the same
    /// step, whether it was classified as touched.
    pub fn publish_sample(&mut self, reading: Reading, state: TouchState)
        ensures
            final(self)@ == (SharedTelemetryState {
                reading: stored_form(reading),
                touched: state == TouchState::Touched,
            }),
    {
        let touched = match state {
            TouchState::Touched => true,
            TouchState::Untouched => false,
        };
        let stored = if reading.value == 0 {
            Reading { value: ZERO_SENTINEL }
        } else {
            reading
        };
        self.state = SharedTelemetryState { reading: stored, touched };
    }

    /// What the channel holds.
    pub fn latest(&self) -> (state: SharedTelemetryState)
        ensures
            state == self@,
    {
        self.state
    }

    /// Answers a transport event. `inbound` is what was drained from the
    /// transport; its content is ignored. Where it is empty nothing is to be
    /// written back. Where it holds at least one byte, the answer is the
    /// stored reading as decimal text followed by a newline; a reading's
    /// report always fits the report buffer, so it is never dropped.
    pub fn on_transport_event(&self, inbound: &[u8]) -> (outbound: Option<Vec<u8>>)
        ensures
            outbound is Some <==> inbound@.len() > 0,
            outbound matches Some(bytes) ==> bytes@ == report(self@.reading),
            match outbound {
                Some(bytes) => self@.response(inbound@.len()) == Some(bytes@),
                None => self@.response(inbound@.len()) is None,
            },
    {
        if inbound.len() == 0 {
            None
        } else {
            proof {
                lemma_report_fits(self.state.reading);
            }
            encode_report(self.state.reading, REPORT_CAPACITY)
        }
    }
}

/// The report of every reading is between two and six bytes long, so it
/// fits the report buffer.
pub proof fn lemma_report_fits(reading: Reading)
    ensures
        2 <= report(reading).len() <= 6,
        encoded(reading, REPORT_CAPACITY as nat) == Some(report(reading)),
{
    lemma_decimal_len(reading.value as nat);
}

/// A reading is never stored as zero, and it is stored changed only where it
/// is zero. The zero marker is no sample and not the invalid marker, so the
/// stored forms of two samples are the same only if the samples are, and no
/// sample is stored as the invalid marker.
pub proof fn lemma_stored_form(reading: Reading, other: Reading)
    ensures
        stored_form(reading).value != 0,
        reading.value != 0 ==> stored_form(reading) == reading,
        reading.value == 0 ==> stored_form(reading).value == ZERO_SENTINEL,
        reading.is_sample() && other.is_sample() ==> (stored_form(reading) == stored_form(other)
            <==> reading == other),
        reading.is_sample() ==> stored_form(reading) != Reading::invalid_marker(),
{
}

/// Whenever the handler looks at a channel, it finds the reading that was
/// published last, in its stored form, and this is what it reports; before
/// the first publish it finds zero. So nothing is ever reported that was not
/// published.
pub proof fn lemma_handler_sees_latest_publish(readings: Seq<Reading>, inbound: nat)
    ensures
        SharedTelemetryState::initial().published_all(readings).reading == if readings.len() == 0 {
            Reading { value: 0 }
        } else {
            stored_form(readings.last())
        },
        inbound > 0 && readings.len() > 0 ==> SharedTelemetryState::initial().published_all(
            readings,
        ).response(inbound) == Some(report(stored_form(readings.last()))),
        inbound == 0 ==> SharedTelemetryState::initial().published_all(readings).response(inbound)
            is None,
{
    if readings.len() > 0 {
        lemma_report_fits(stored_form(readings.last()));
    }
}

} // verus!
