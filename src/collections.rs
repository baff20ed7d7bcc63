//! Enums for heterogeneous collections of events.
pub mod all;
pub mod only;
