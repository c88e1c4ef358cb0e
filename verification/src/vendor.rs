//! Trading with vendors.

use vstd::prelude::*;

verus! {

/// What a vendor menu is used for.
#[derive(PartialEq, Eq, Copy, Clone, Debug, Structural)]
pub enum VendorMode {
    Buy,
    Sell,
}

} // verus!
