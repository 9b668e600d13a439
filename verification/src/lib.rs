//! Capacitive-touch sensing on a microcontroller's touch peripheral.
//!
//! The crate holds the decisions of a touch sensor driver and leaves the
//! register accesses to its caller. A driver says what is to be done on the
//! peripheral next ([`protocol::Action`]), the caller does it and reports
//! what it gave ([`protocol::Event`]). No function of this crate waits: a
//! driver that is told that a flag is still raised asks for the same poll
//! again.
//!
//! - [`sequencer`] issues register writes one at a time and has each one
//!   synchronized before the next.
//! - [`configurator`] holds the start-up configuration of the peripheral.
//! - [`measurement`] takes one sample: program, convert, read, scale.
//! - [`driver`] takes the peripheral through its life: disabled,
//!   initializing, idle and measuring.
//! - [`detector`] classifies readings as touched or untouched.
//! - [`telemetry`] keeps the latest reading for a transport handler and
//!   formats the report it answers with, using [`decimal`].
//! - [`budget`] limits the polls of a wait for callers that would rather
//!   fail than hang.
//! - [`registers`] describes the peripheral's registers, and [`reading`]
//!   the samples.
//! - [`generic`] and [`tcc0`] hold register readers and writers of the
//!   timer/counter.

pub mod budget;
pub mod configurator;
pub mod decimal;
pub mod detector;
pub mod driver;
pub mod generic;
pub mod measurement;
pub mod protocol;
pub mod reading;
pub mod registers;
pub mod sequencer;
pub mod tcc0;
pub mod telemetry;
