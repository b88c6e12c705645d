//! Building blocks for two query-engine extensions: a virtual table that
//! lists the objects of a store, and a scalar function that measures the
//! distance between embedding vectors.
//!
//! Everything here works on plain values. The engine-facing glue hands
//! descriptors, argument types and row shapes in, and gets batches, plans and
//! verdicts back.

pub mod pattern;
pub mod descriptor;
pub mod batch;
pub mod scan;
pub mod scan_laws;
pub mod table;
pub mod distance;
pub mod chat;
