//! Register reader and writer values shared by every register definition.

use core::marker::PhantomData;
use vstd::prelude::*;

verus! {

/// Reset value of a register.
pub trait ResetValue {
    /// Register size.
    type Type;

    /// The value the register holds after a reset, as a specification.
    spec fn reset_bits() -> Self::Type;

    /// The value the register holds after a reset.
    fn reset_value() -> (value: Self::Type)
        ensures
            value == Self::reset_bits(),
    ;
}

/// The contents of a register, or of one of its fields, as they were read.
///
/// Its view is the raw bits it holds.
pub struct R<U, T> {
    bits: U,
    _reg: PhantomData<T>,
}

impl<U, T> View for R<U, T> {
    type V = U;

    closed spec fn view(&self) -> U {
        self.bits
    }
}

impl<U: Copy, T> R<U, T> {
    /// A reader holding `bits`.
    pub fn new(bits: U) -> (r: Self)
        ensures
            r@ == bits,
    {
        R { bits, _reg: PhantomData }
    }

    /// The raw bits held by the reader.
    pub fn bits(&self) -> (bits: U)
        ensures
            bits == self@,
    {
        self.bits
    }
}

/// The value that is about to be written to a register.
///
/// Its view is the raw bits it holds.
pub struct W<U, REG> {
    bits: U,
    _reg: PhantomData<REG>,
}

impl<U, REG> View for W<U, REG> {
    type V = U;

    closed spec fn view(&self) -> U {
        self.bits
    }
}

impl<U: Copy, REG> W<U, REG> {
    /// A writer that starts from `bits`.
    pub fn new(bits: U) -> (w: Self)
        ensures
            w@ == bits,
    {
        W { bits, _reg: PhantomData }
    }

    /// Replaces the whole value to be written.
    pub fn bits(&mut self, bits: U) -> (w: &mut Self)
        ensures
            w@ == bits,
            final(self)@ == final(w)@,
    {
        self.bits = bits;
        self
    }

    /// The raw bits that would be written.
    pub fn raw(&self) -> (bits: U)
        ensures
            bits == self@,
    {
        self.bits
    }
}

} // verus!
