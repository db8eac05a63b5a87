//! Utilities for reading and validating Metaplex-style metadata accounts:
//! program-derived address (PDA) computation, type-tagged checked
//! deserialization of account buffers, and fixed-width zero-padding of
//! string fields.
use vstd::prelude::*;

pub mod deser;
pub mod edition;
pub mod error;
pub mod pda;
pub mod state;
pub mod utils;

pub use pda::{get_metadata_pda, metaplex_program_id};


verus! {

} // verus!
