//! A link shortener: short identifiers, normalized target URLs, time-bounded
//! store round trips and the redirect policy, with their contracts.

pub mod ident;
pub mod link;
pub mod service;
pub mod table;
pub mod target;
pub mod laws;
