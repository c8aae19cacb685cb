//! Batch execution of task records: a per-task decision machine, the
//! order-preserving reassembly of results that arrive in any order, and
//! the tabular encoding of the result table.
pub mod executor;
pub mod scheduler;
pub mod table;
pub mod task;
