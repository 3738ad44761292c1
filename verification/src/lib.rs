//! The scheduling core of a small kernel: task capabilities and the table that
//! counts them, a FIFO and a completely fair scheduling policy, wait queues,
//! and the saved hardware context of a task.

pub mod cfs;
pub mod context;
pub mod fifo;
pub mod ordered;
pub mod table;
pub mod wait_queue;
