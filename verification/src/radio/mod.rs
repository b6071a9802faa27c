//! Radio failures as the MAC layer sees them.

use vstd::prelude::*;

verus! {

/// A failure of the radio.
#[derive(Debug, Clone, Copy, PartialEq, Eq)]
pub struct RadioError;

} // verus!
