//! A small engine for geometric tasks: an exact quaternion algebra, the closed
//! set of geometric operators with the rule that maps free-text labels onto it,
//! and a task manager that owns a table of tasks and one shared snapshot of
//! derived metrics.

pub mod data_io;
pub mod error;
pub mod ids;
pub mod json;
pub mod metrics;
pub mod operator;
pub mod processor;
pub mod quaternion;
pub mod routes;
pub mod structex_bridge;
pub mod task;
