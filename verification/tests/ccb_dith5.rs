use touch_sense::generic::ResetValue;
use touch_sense::tcc0::ccb_dith5::{R, W};
use touch_sense::tcc0::CCB_DITH5;

#[test]
fn reader_splits_the_two_fields() {
    let r = R::new(0x00ab_cdef);
    assert_eq!(r.bits(), 0x00ab_cdef);
    assert_eq!(r.dithercyb().bits(), 0x0f);
    assert_eq!(r.ccb().bits(), 0x00ab_cdef >> 5);
    let all = R::new(0xffff_ffff);
    assert_eq!(all.dithercyb().bits(), 0x1f);
    assert_eq!(all.ccb().bits(), 0x0007_ffff);
    let none = R::new(0);
    assert_eq!(none.dithercyb().bits(), 0);
    assert_eq!(none.ccb().bits(), 0);
}

#[test]
fn writer_replaces_only_the_addressed_field() {
    let mut w = W::new(0xffff_ffff);
    w.dithercyb().bits(3);
    assert_eq!(w.raw(), 0xffff_ffe3);
    w.ccb().bits(0);
    assert_eq!(w.raw(), 0xff00_0003);
    w.ccb().bits(0x0007_ffff);
    assert_eq!(w.raw(), 0xffff_ffe3);
}

#[test]
fn writer_drops_bits_above_the_field_width() {
    let mut w = W::new(0);
    w.dithercyb().bits(0xff);
    assert_eq!(w.raw(), 0x1f);
    w.ccb().bits(0xffff_ffff);
    assert_eq!(w.raw(), 0x00ff_ffff);
}

#[test]
fn writer_calls_chain() {
    let mut w = W::new(CCB_DITH5::reset_value());
    w.dithercyb().bits(5).ccb().bits(0x1234);
    assert_eq!(w.raw(), (0x1234 << 5) | 5);
    w.bits(0xdead_beef);
    assert_eq!(w.raw(), 0xdead_beef);
    let r = R::new(w.raw());
    assert_eq!(r.dithercyb().bits(), (0xdead_beefu32 & 0x1f) as u8);
    assert_eq!(r.ccb().bits(), (0xdead_beefu32 >> 5) & 0x0007_ffff);
}

#[test]
fn register_resets_to_zero() {
    assert_eq!(CCB_DITH5::reset_value(), 0);
}
