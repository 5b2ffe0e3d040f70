//! Decision logic of a single-worker deployment dispatcher: the task state
//! machine, the task table and its claim discipline, the wake signal and the
//! per-task log directory.

pub mod api;
pub mod dispatcher;
pub mod error;
pub mod file;
pub mod keyed;
pub mod logs;
pub mod status;
pub mod store;
pub mod system;
pub mod table;
pub mod task;
pub mod text;
pub mod wake;
