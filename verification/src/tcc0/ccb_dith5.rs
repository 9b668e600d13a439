//! Compare/capture buffer register, 5-bit dithering layout.
//!
//! Bits 0:4 hold the dithering buffer cycle number `DITHERCYB`, bits 5:23 the
//! channel compare/capture buffer value `CCB`. Bits 24:31 belong to neither
//! field.

use crate::generic::ResetValue;
use vstd::prelude::*;

verus! {

/// Reader of register CCB_DITH5.
pub type R = crate::generic::R<u32, super::CCB_DITH5>;

/// Writer for register CCB_DITH5.
pub type W = crate::generic::W<u32, super::CCB_DITH5>;

/// Reader of field `DITHERCYB`.
#[allow(non_camel_case_types)]
pub type DITHERCYB_R = crate::generic::R<u8, u8>;

/// Reader of field `CCB`.
#[allow(non_camel_case_types)]
pub type CCB_R = crate::generic::R<u32, u32>;

/// The `DITHERCYB` field of a register value: its five lowest bits.
pub open spec fn dithercyb_field(bits: u32) -> u8 {
    (bits & 0x1f) as u8
}

/// The `CCB` field of a register value: the nineteen bits from bit 5 up.
pub open spec fn ccb_field(bits: u32) -> u32 {
    (bits >> 5) & 0x0007_ffff
}

/// The register value `bits` with its `DITHERCYB` field replaced by the five
/// lowest bits of `value`.
pub open spec fn with_dithercyb(bits: u32, value: u8) -> u32 {
    (bits & !0x1fu32) | ((value as u32) & 0x1f)
}

/// The register value `bits` with its `CCB` field replaced by the nineteen
/// lowest bits of `value`.
pub open spec fn with_ccb(bits: u32, value: u32) -> u32 {
    (bits & !(0x0007_ffffu32 << 5)) | ((value & 0x0007_ffff) << 5)
}

impl ResetValue for super::CCB_DITH5 {
    type Type = u32;

    open spec fn reset_bits() -> u32 {
        0
    }

    /// Register CCB_DITH5 resets with value 0.
    fn reset_value() -> (value: u32) {
        0
    }
}

/// Write proxy for field `DITHERCYB`.
#[allow(non_camel_case_types)]
pub struct DITHERCYB_W<'a> {
    /// The register value being assembled.
    pub w: &'a mut W,
}

impl<'a> DITHERCYB_W<'a> {
    /// Writes raw bits to the field. Bits of `value` above the field's width
    /// are dropped; the rest of the register value is kept.
    pub fn bits(self, value: u8) -> (w: &'a mut W)
        ensures
            w@ == with_dithercyb(old(self.w)@, value),
            final(w)@ == final(self.w)@,
    {
        let w = self.w;
        let bits: u32 = w.raw();
        w.bits((bits & !0x1f) | ((value as u32) & 0x1f))
    }
}

/// Write proxy for field `CCB`.
#[allow(non_camel_case_types)]
pub struct CCB_W<'a> {
    /// The register value being assembled.
    pub w: &'a mut W,
}

impl<'a> CCB_W<'a> {
    /// Writes raw bits to the field. Bits of `value` above the field's width
    /// are dropped; the rest of the register value is kept.
    pub fn bits(self, value: u32) -> (w: &'a mut W)
        ensures
            w@ == with_ccb(old(self.w)@, value),
            final(w)@ == final(self.w)@,
    {
        let w = self.w;
        let bits: u32 = w.raw();
        w.bits((bits & !(0x0007_ffff << 5)) | ((value & 0x0007_ffff) << 5))
    }
}

impl R {
    /// Bits 0:4 - Dithering Buffer Cycle Number
    pub fn dithercyb(&self) -> (field: DITHERCYB_R)
        ensures
            field@ == dithercyb_field(self@),
    {
        DITHERCYB_R::new((self.bits() & 0x1f) as u8)
    }

    /// Bits 5:23 - Channel Compare/Capture Buffer Value
    pub fn ccb(&self) -> (field: CCB_R)
        ensures
            field@ == ccb_field(self@),
    {
        CCB_R::new((self.bits() >> 5) & 0x0007_ffff)
    }
}

impl W {
    /// Bits 0:4 - Dithering Buffer Cycle Number
    pub fn dithercyb(&mut self) -> (proxy: DITHERCYB_W)
        ensures
            proxy.w@ == old(self)@,
            final(self)@ == final(proxy.w)@,
    {
        DITHERCYB_W { w: self }
    }

    /// Bits 5:23 - Channel Compare/Capture Buffer Value
    pub fn ccb(&mut self) -> (proxy: CCB_W)
        ensures
            proxy.w@ == old(self)@,
            final(self)@ == final(proxy.w)@,
    {
        CCB_W { w: self }
    }
}

/// A field reads back what was written to it, cut to the field's width.
pub proof fn lemma_field_reads_back(bits: u32, cycles: u8, compare: u32)
    ensures
        dithercyb_field(with_dithercyb(bits, cycles)) == cycles & 0x1f,
        ccb_field(with_ccb(bits, compare)) == compare & 0x0007_ffff,
{
    assert(dithercyb_field(with_dithercyb(bits, cycles)) == cycles & 0x1f) by (bit_vector);
    assert(ccb_field(with_ccb(bits, compare)) == compare & 0x0007_ffff) by (bit_vector);
}

/// Writing one field leaves the other field, and the top byte that belongs
/// to neither, as they were.
pub proof fn lemma_fields_are_independent(bits: u32, cycles: u8, compare: u32)
    ensures
        ccb_field(with_dithercyb(bits, cycles)) == ccb_field(bits),
        dithercyb_field(with_ccb(bits, compare)) == dithercyb_field(bits),
        with_dithercyb(bits, cycles) >> 24 == bits >> 24,
        with_ccb(bits, compare) >> 24 == bits >> 24,
{
    assert(ccb_field(with_dithercyb(bits, cycles)) == ccb_field(bits)) by (bit_vector);
    assert(dithercyb_field(with_ccb(bits, compare)) == dithercyb_field(bits)) by (bit_vector);
    assert(with_dithercyb(bits, cycles) >> 24 == bits >> 24) by (bit_vector);
    assert(with_ccb(bits, compare) >> 24 == bits >> 24) by (bit_vector);
}

/// A field never holds more than its width allows.
pub proof fn lemma_fields_are_bounded(bits: u32)
    ensures
        dithercyb_field(bits) < 32,
        ccb_field(bits) < 0x0008_0000,
{
    assert(dithercyb_field(bits) < 32) by (bit_vector);
    assert(ccb_field(bits) < 0x0008_0000) by (bit_vector);
}

} // verus!
