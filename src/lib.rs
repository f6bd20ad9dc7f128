//! Line-oriented text utilities: a numbering `cat`, an `echo` and a `head`.
//!
//! The library holds what these tools decide and compute; reading sources
//! and writing to the terminal is left to the caller.

pub mod catr;
pub mod echor;
pub mod headr;
pub mod source;
pub mod text;

use vstd::prelude::*;

verus! {

} // verus!
