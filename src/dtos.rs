//! The bodies of the three wire calls, as plain values.
pub mod accept;
pub mod register;
pub mod update;
