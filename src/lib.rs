//! The data model and logic of an enum-dispatch micro-benchmark.
//!
//! The scalar type of every payload is a parameter: the benchmark itself runs
//! on `f64`, while the shape of the data and the dispatch rule are stated and
//! proved here for any scalar.
use vstd::prelude::*;

pub mod generate;
pub mod transform;
