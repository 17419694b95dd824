//! A fixed-width permutation-based hash over a prime field, exposed through
//! a sponge construction, for deriving challenge scalars inside signature
//! protocols.
//!
//! The crate verifies the round structure and constant scheduling of the
//! permutation, the sponge's absorb/squeeze state machine, and the
//! validation and decoding of the parameter table it is driven by. The
//! field arithmetic itself comes from an outside crate and is taken at its
//! word: each operation's result is named, and every contract is stated
//! over those names.
use vstd::prelude::*;

pub mod codec;
pub mod field;
pub mod params;
pub mod permutation;
pub mod sponge;

verus! {

/// A configuration failure detected while building a parameter set.
#[derive(Clone, Copy, Debug, PartialEq, Eq, Structural)]
pub enum ConfigError {
    /// A round-constant or matrix literal is not a valid hex encoding.
    InvalidHex,
    /// The decoded round-constant table does not match the round counts.
    TableLength,
    /// The mixing matrix is not exactly 5 rows of 5 entries.
    MatrixShape,
    /// The number of full rounds is odd, so it cannot halve evenly.
    OddFullRounds,
}

} // verus!
