//! Random values for test fixtures: numbers, bytes, strings and points in time.
//!
//! Every function picks its value with the generator of the current thread. What a function
//! may return is stated in its contract and verified.
pub mod byte;
pub mod date_time;
pub mod number;
pub mod string;
