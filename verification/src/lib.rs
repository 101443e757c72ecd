//! An asynchronous, callback-driven media codec interface, reduced to its
//! deterministic heart: the lifecycle of a codec instance, the ordered queue
//! of control messages, and the hand-off of work to a pool of workers.
//!
//! Nothing in here blocks, spawns a thread or talks to a media backend. Each
//! operation changes the state of the instance and records what has to happen
//! outside it (a job to run on a worker, an error to deliver, the backend to
//! release) as an [`engine::effect::Effect`]. The embedding program takes the
//! effects and performs them in order.

pub mod codec;
pub mod engine;
pub mod data;
