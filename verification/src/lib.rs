//! Verified core of a 2D territory-capture cellular automaton.
//!
//! The library covers the pieces of the game that carry real logic: the
//! neighborhood rule engine, the double-buffered grid with its chunked tick
//! executor, the simulation lifecycle state machine with turn counting and
//! capture-commit, and the compute-pipeline sequencing state machine. The
//! surrounding engine (rendering, UI, asset loading) is expected to drive
//! these types from the outside.

pub mod pixel;
pub mod rule;
pub mod grid;
pub mod executor;
pub mod settings;
pub mod rng;
pub mod lifecycle;
pub mod pipeline;
