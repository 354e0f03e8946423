//! A verified spin lock, with the smaller worked examples that grew up
//! around it.
//!
//! - `spinlock`: a value behind an atomic exclusive-access flag, reached
//!   through a guard that releases the flag when it is dropped.
//! - `summary`: a trait for one-line summaries and two implementations.
//! - `shapes`: rectangles and user records.
//! - `generics`: the largest element of a slice, pairs and points.
//! - `functions`: arithmetic, recursion and functions passed as values.
//! - `text`: string slices, owned strings and matching on values.
//! - `values`: constants, fixed-size arrays and capacity rules.
pub mod functions;
pub mod generics;
pub mod shapes;
pub mod spinlock;
pub mod summary;
pub mod text;
pub mod values;
