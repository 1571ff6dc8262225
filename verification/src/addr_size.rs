//! Memory address size markers.

use vstd::prelude::*;

verus! {

/// 1-byte memory address, e.g. for AT24x00, AT24x01, AT24x02, AT24x04,
/// AT24x08, AT24x16.
pub struct OneByte(());

/// 2-byte memory address, e.g. for AT24x32, AT24x64, AT24x128, AT24x256,
/// AT24x512, AT24xM01, AT24xM02.
pub struct TwoBytes(());

} // verus!
