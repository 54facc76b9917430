//! What the operations are for, stated of the operations themselves.
//!
//! Each law here speaks of results that a function's contract admits, in plain numbers,
//! bytes and values, or relates the results of several calls.

pub mod access;
pub mod adapter;
pub mod attributes;
pub mod backing;
pub mod calls;
pub mod darwin;
pub mod defaults;
pub mod errors;
pub mod listings;
pub mod locks;
pub mod mounts;
pub mod moves;
pub mod names;
pub mod nodes;
pub mod opens;
pub mod snapshots;
pub mod times;
pub mod values;
pub mod waiting;
