//! The discrete core of a planar-curve kernel: `clamp` on integers, the
//! validation of an Euler-spiral segment's parameters by their signs, and
//! the segment's fixed-size sample table with the index arithmetic that
//! answers position queries from it.
//!
//! The samples themselves are opaque to this library: a table holds values
//! of any `Copy` type, and the arithmetic on them is handed in as closures.

pub mod clothoid;
pub mod lookup;
pub mod util;
