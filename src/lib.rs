//! Decision logic of a one-dimensional Monte Carlo radiative transfer run:
//! validation of the run's parameters, the classification of a packet's
//! height after a move, the angular histogram of escaping packets and the
//! schedule of progress notifications.
//!
//! The floating-point physics (sampling directions, moving packets, the
//! arc-cosines of the bin centres) is done by the caller, which hands the
//! library the results of its comparisons and truncations.
pub mod config;
pub mod transport;
pub mod run;
