//! The machinery shared by codec instances.

pub mod backend;
pub mod control;
pub mod effect;
pub mod internal_slots;
pub mod work_queue;
