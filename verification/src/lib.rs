//! Core of a light-cycle trail: a vehicle moves along axis-aligned
//! directions, turning in right angles, and leaves a permanent wall built
//! from the sequence of turns.  The crate covers the turn ledger, the
//! per-segment corner-offset geometry (with its gap-filling rule at
//! corners), the fixed vertex/index buffer layout of the wall mesh, and the
//! hit test of a position against a finalized segment.
//!
//! All coordinates are fixed-point integers in milliunits (one thousandth
//! of a world unit), so every geometric statement here is exact.

pub mod direction;
pub mod line;
pub mod player;
pub mod point;
