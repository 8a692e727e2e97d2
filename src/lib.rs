//! A record program that stamps a reference value exactly once, at an
//! address derived from the reference, together with the checks, fee
//! arithmetic and value transfers such a program needs. Ledger accounts are
//! modelled as plain values; every operation states its outcome and leaves
//! its accounts unchanged when it fails.

use vstd::prelude::*;

pub mod account;
pub mod address;
pub mod error;
pub mod instruction;
pub mod processor;
pub mod state;
pub mod utils;

pub use address::find_stanp_program_address;

verus! {

} // verus!
