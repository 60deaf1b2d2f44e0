//! Integer-level core of a small first-order optimisation library: problem
//! selection and point-length validation, the linear constraint structure of
//! the built-in problems, and random coordinate sampling for stochastic descent.

pub mod config;
pub mod sampling;
pub mod constraints;
