//! A constant-function market maker: two token reserves priced by a curve, a
//! pool-share token minted and burned against them, and fees on trades and
//! withdrawals. Every operation is a checked function from decoded account state
//! and arguments to the effects it produces, or a typed failure.

use vstd::prelude::*;

pub mod authority;
pub mod constraints;
pub mod curve;
pub mod error;
pub mod fees;
pub mod instruction;
pub mod laws;
pub mod math;
pub mod processor;
pub mod stable;
pub mod state;

verus! {

} // verus!
