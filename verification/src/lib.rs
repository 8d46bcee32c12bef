//! A small verified library: an offset sum of two integers, decimal
//! rendering of integers, and the greeting lines of a bounded counter.

pub mod decimal;
pub mod greeting;
pub mod sum;
