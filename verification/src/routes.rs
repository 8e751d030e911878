//! The request-handling core: the untyped form record at the boundary, the
//! validation step that turns it into a `NewSubscriber`, and the mapping
//! from the Storage Gateway's outcome to the handler's response.

pub mod dto;
pub mod subscriptions;
