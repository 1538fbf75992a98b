//! The interceptor, its event records, its key codes and its remap table.

pub mod event;
pub mod fault;
pub mod handler;
pub mod keys;
pub mod remap;
pub mod trace;
pub mod transition;
