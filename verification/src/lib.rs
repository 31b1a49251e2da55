//! Decision logic of a chess game backend: the HTTP handlers' answers to
//! every service outcome, the timeout daemon's lifecycle and sweep, and the
//! clock arithmetic the sweep relies on.

pub mod ids;
pub mod clock;
pub mod text;
pub mod model;
pub mod daemon;
pub mod games;
