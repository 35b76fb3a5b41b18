//! Publishing built Python packages to an index that speaks the legacy
//! upload protocol: resolving the account to use, laying out the form that
//! describes one artifact, reading the index's answer, and deciding how a
//! batch of uploads goes on after each answer.

pub mod text;
pub mod name;
pub mod response;
pub mod request;
pub mod registry;
pub mod batch;
