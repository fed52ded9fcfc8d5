//! A bounded-concurrency, pattern-driven file-tree search library.
//!
//! The library holds the verified core of the tool: the counting
//! semaphore that gates how many search tasks run at once, the matcher
//! that decides which names and lines are reported, the per-entry task
//! logic, and the aggregation of task outcomes. Directory walking,
//! threads and printing live outside the library and hand it plain
//! values.

pub mod errors;
pub mod matcher;
pub mod search;
pub mod semaphore;
