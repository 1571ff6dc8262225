//! Factory-supplied unique serial number markers.

use vstd::prelude::*;

verus! {

/// Contains a factory-supplied unique serial number, e.g. for AT24CSx.
pub struct Yes(());

/// No factory-supplied unique serial number.
pub struct No(());

} // verus!
