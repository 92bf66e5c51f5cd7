//! The registry of campaigns: it creates them from a template, one at a
//! time, and lists those that have registered.
pub mod msg;
pub mod project;
pub mod state;
pub mod contract;
