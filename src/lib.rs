//! Monte Carlo estimation of pi: a four-lane xoroshiro128++ generator, the
//! conversion of its words into unit-interval coordinates, and the counting
//! and reduction of hits across workers.

pub mod rng;
pub mod sample;
pub mod tally;
