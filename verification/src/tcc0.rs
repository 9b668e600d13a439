//! Timer/counter for control applications.

use vstd::prelude::*;

pub mod ccb_dith5;

verus! {

/// Marker for the compare/capture buffer register in 5-bit dithering mode.
#[allow(non_camel_case_types)]
pub struct CCB_DITH5;

} // verus!
