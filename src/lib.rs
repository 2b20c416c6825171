//! A file round-trip benchmark harness: deterministic payload generation, the
//! XOR-fold integrity checksum, and the result records of each benchmark
//! variant. The host performs the timed write and read-back passes and hands
//! the bytes it read, with the elapsed time, to the report functions here.

pub mod checksum;
pub mod pattern;
pub mod payload;
pub mod report;
