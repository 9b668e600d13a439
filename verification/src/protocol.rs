//! The exchange between a driver and the peripheral: what the driver asks to
//! have done, what comes back, and the rule that orders writes.

use crate::registers::RegisterWrite;
use vstd::prelude::*;

verus! {

/// What a driver wants done on the peripheral next.
#[derive(Clone, Copy, Debug, PartialEq, Eq)]
pub enum Action {
    /// Issue this register write.
    Write(RegisterWrite),
    /// Read the synchronization-busy flag.
    PollSync,
    /// Read the start-conversion bit, which the hardware clears when the
    /// conversion is complete.
    PollConversion,
    /// Read the raw conversion count.
    ReadResult,
    /// Nothing: the driver has no work for the peripheral.
    Idle,
}

/// What carrying out an [`Action`] gave.
#[derive(Clone, Copy, Debug, PartialEq, Eq)]
pub enum Event {
    /// The write was issued.
    Written,
    /// The synchronization-busy flag was read.
    SyncFlag { busy: bool },
    /// The start-conversion bit was read.
    ConversionFlag { converting: bool },
    /// The result register was read, or no value could be obtained from it.
    RawResult { raw: Option<u16> },
}

/// What the peripheral would show if it were read at some instant.
pub struct Status {
    /// The synchronization-busy flag is raised.
    pub sync_busy: bool,
    /// The start-conversion bit is still set.
    pub converting: bool,
    /// What reading the result gives.
    pub result: Option<u16>,
}

/// One action carried out, with what it gave.
pub struct Exchange {
    pub action: Action,
    pub event: Event,
}

impl Event {
    /// Whether the event is the kind of outcome that `action` has.
    pub open spec fn answers(self, action: Action) -> bool {
        match action {
            Action::Write(_) => self is Written,
            Action::PollSync => self is SyncFlag,
            Action::PollConversion => self is ConversionFlag,
            Action::ReadResult => self is RawResult,
            Action::Idle => false,
        }
    }

    /// The event shows that the hardware is not done yet: the
    /// synchronization-busy flag is raised, or the conversion in progress.
    pub open spec fn shows_busy(self) -> bool {
        self == (Event::SyncFlag { busy: true }) || self == (Event::ConversionFlag {
            converting: true,
        })
    }

    /// What carrying out `action` gives on a peripheral that shows `status`.
    pub open spec fn outcome(action: Action, status: Status) -> Event {
        match action {
            Action::PollSync => Event::SyncFlag { busy: status.sync_busy },
            Action::PollConversion => Event::ConversionFlag { converting: status.converting },
            Action::ReadResult => Event::RawResult { raw: status.result },
            _ => Event::Written,
        }
    }
}

impl Exchange {
    /// The exchange is a register write.
    pub open spec fn is_write(self) -> bool {
        self.action is Write
    }

    /// The exchange read the synchronization-busy flag and found it clear.
    pub open spec fn shows_sync_clear(self) -> bool {
        self.action is PollSync && self.event == (Event::SyncFlag { busy: false })
    }
}

/// Whether, after the exchanges of `trace`, the synchronization-busy flag
/// may still be raised: a write was issued and the flag has not been read
/// clear since. Before the first write the flag is as `initially` says.
pub open spec fn sync_outstanding(initially: bool, trace: Seq<Exchange>) -> bool
    decreases trace.len(),
{
    if trace.len() == 0 {
        initially
    } else if trace.last().is_write() {
        true
    } else if trace.last().shows_sync_clear() {
        false
    } else {
        sync_outstanding(initially, trace.drop_last())
    }
}

/// The write discipline: no write is issued while the synchronization-busy
/// flag may still be raised.
pub open spec fn disciplined(initially: bool, trace: Seq<Exchange>) -> bool {
    forall|i: int|
        0 <= i < trace.len() && (#[trigger] trace[i]).is_write() ==> !sync_outstanding(
            initially,
            trace.take(i),
        )
}

/// The register writes of `trace`, in the order they were issued.
pub open spec fn writes_of(trace: Seq<Exchange>) -> Seq<RegisterWrite>
    decreases trace.len(),
{
    if trace.len() == 0 {
        Seq::empty()
    } else {
        match trace.last().action {
            Action::Write(write) => writes_of(trace.drop_last()).push(write),
            _ => writes_of(trace.drop_last()),
        }
    }
}

/// The flag may be raised after a trace exactly if the trace holds a write
/// that no later exchange has shown to be synchronized, or if it was raised
/// to begin with and no exchange has shown it clear.
pub proof fn lemma_sync_outstanding_means_unconfirmed(initially: bool, trace: Seq<Exchange>)
    ensures
        sync_outstanding(initially, trace) <==> {
            ||| exists|j: int|
                0 <= j < trace.len() && (#[trigger] trace[j]).is_write() && forall|k: int|
                    j < k < trace.len() ==> !(#[trigger] trace[k]).shows_sync_clear()
            ||| initially && forall|k: int|
                0 <= k < trace.len() ==> !(#[trigger] trace[k]).shows_sync_clear()
        },
    decreases trace.len(),
{
    if trace.len() > 0 {
        let front = trace.drop_last();
        let last = trace.len() - 1;
        lemma_sync_outstanding_means_unconfirmed(initially, front);
        assert(forall|k: int| 0 <= k < front.len() ==> front[k] == trace[k]);
        assert(trace[last] == trace.last());
        if !trace.last().is_write() && !trace.last().shows_sync_clear() {
            if sync_outstanding(initially, front) {
                if !(initially && forall|k: int|
                    0 <= k < front.len() ==> !(#[trigger] front[k]).shows_sync_clear()) {
                    let j = choose|j: int|
                        0 <= j < front.len() && (#[trigger] front[j]).is_write() && forall|k: int|
                            j < k < front.len() ==> !(#[trigger] front[k]).shows_sync_clear();
                    assert(trace[j].is_write());
                }
            } else {
                if exists|j: int|
                    0 <= j < trace.len() && (#[trigger] trace[j]).is_write() && forall|k: int|
                        j < k < trace.len() ==> !(#[trigger] trace[k]).shows_sync_clear() {
                    let j = choose|j: int|
                        0 <= j < trace.len() && (#[trigger] trace[j]).is_write() && forall|k: int|
                            j < k < trace.len() ==> !(#[trigger] trace[k]).shows_sync_clear();
                    assert(front[j].is_write());
                }
            }
        }
    }
}

/// A disciplined trace stays disciplined when an exchange is added that is
/// no write, or a write made while no flag is outstanding.
pub proof fn lemma_discipline_extends(initially: bool, trace: Seq<Exchange>, next: Exchange)
    requires
        disciplined(initially, trace),
        next.is_write() ==> !sync_outstanding(initially, trace),
    ensures
        disciplined(initially, trace.push(next)),
{
    let longer = trace.push(next);
    assert forall|i: int| 0 <= i < longer.len() && (#[trigger] longer[i]).is_write() implies !sync_outstanding(
        initially,
        longer.take(i),
    ) by {
        if i < trace.len() {
            assert(longer.take(i) == trace.take(i));
        } else {
            assert(longer.take(i) == trace);
        }
    }
}

/// In a disciplined trace every write is kept apart from the write before
/// it by a poll that found the flag clear, and where the flag may have been
/// raised to begin with, such a poll comes before the first write as well.
pub proof fn lemma_discipline_separates_writes(
    initially: bool,
    trace: Seq<Exchange>,
    earlier: int,
    later: int,
)
    requires
        disciplined(initially, trace),
        0 <= later < trace.len(),
        trace[later].is_write(),
    ensures
        0 <= earlier < later && trace[earlier].is_write() ==> exists|k: int|
            earlier < k < later && (#[trigger] trace[k]).shows_sync_clear(),
        initially ==> exists|k: int| 0 <= k < later && (#[trigger] trace[k]).shows_sync_clear(),
{
    let front = trace.take(later);
    lemma_sync_outstanding_means_unconfirmed(initially, front);
    assert(forall|k: int| 0 <= k < later ==> front[k] == trace[k]);
    if 0 <= earlier < later && trace[earlier].is_write() {
        assert(front[earlier].is_write());
        let k = choose|k: int| earlier < k < front.len() && (#[trigger] front[k]).shows_sync_clear();
        assert(trace[k].shows_sync_clear());
    }
    if initially {
        let k = choose|k: int| 0 <= k < front.len() && (#[trigger] front[k]).shows_sync_clear();
        assert(trace[k].shows_sync_clear());
    }
}

} // verus!
