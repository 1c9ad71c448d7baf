//! Decision logic of a one-shot image worker: where the result is written,
//! which transformation steps run and in what order, and what is reported.

pub mod imaging;
pub mod outcome;
pub mod paths;
pub mod plan;
