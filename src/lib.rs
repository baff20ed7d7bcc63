//! A typed event model for a federated messaging protocol: the event-kind registry, the
//! classifying unions over event kinds, and the rules that sort an untyped document into them.
pub mod call;
pub mod collections;
pub mod event_type;
pub mod events;
pub mod ids;
pub mod json;
pub mod member;
pub mod stripped;
pub mod typing;
