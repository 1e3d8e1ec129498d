//! A record store that owns heap-allocated person-like records (an owned
//! text payload and an age) and hands them to callers through handles,
//! guaranteeing that every text allocation is owned by exactly one live
//! record, is never aliased between two live records, and is reclaimed
//! exactly once.

pub mod store;
pub mod text;
