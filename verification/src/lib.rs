//! Simulation of rigid tetromino pieces dropped into a fixed-width well
//! under gravity, with full-row clearing and stack-height reporting.
//!
//! The library owns the whole placement pipeline: resolving a shape
//! identifier to its footprint, finding the resting row of a piece dropped
//! at a column, writing the piece into the occupancy grid, clearing full
//! rows with downward compaction, and reporting the stack height.
//! Reading input lines, splitting piece tokens and printing results are
//! left to the surrounding program.
use vstd::prelude::*;

pub mod grid;
pub mod laws;
pub mod sim;
pub mod tetromino;

verus! {

/// The ways a simulation request can be rejected.
///
/// No error is recovered from: a failing piece aborts its whole line.
#[derive(Clone, Copy, Debug, PartialEq, Eq, Structural)]
pub enum TetrisError {
    /// The shape identifier is not one of `Q`, `Z`, `S`, `T`, `I`, `L`, `J`.
    UnknownShape,
    /// The footprint would lie partly outside the grid at the requested
    /// column, or the stack has grown too close to the top of the well
    /// for another piece to be tested above it.
    OutOfBounds,
    /// A piece token could not be split into a one-character shape and a
    /// base-10 column index. Produced by the surrounding parser, which
    /// owns tokenization; the library only defines the error.
    MalformedInput,
}

} // verus!
