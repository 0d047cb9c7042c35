//! A request router with a shared response cache and backend-call dispatch.
//!
//! The router receives an inbound request naming a logical backend service,
//! returns a cached result if one exists for that service, otherwise asks the
//! backend registry for the corresponding call, stores the payload, and
//! returns it. The surrounding shell (socket handling, configuration loading)
//! stays outside this crate; the library works on plain methods, paths and
//! payload strings and states exactly which response every input receives.

pub mod assets;
pub mod auth;
pub mod cache;
pub mod parser;
pub mod registry;
pub mod response;
pub mod router;
pub mod settings;
pub mod text;
