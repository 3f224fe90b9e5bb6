//! Shared scalar types of the machine model.

use vstd::prelude::*;

verus! {

/// A machine word: every register, port and memory cell holds one 32-bit word.
pub type Word = u32;

} // verus!
