//! A keyboard interceptor core: while a modifier key is held, selected keys are
//! replaced by navigation and function keys; everything else passes through.
//!
//! The crate holds the decisions only. Device access belongs to the caller, who
//! reads raw event records, hands them over, and writes out what comes back.

pub mod kbd;
