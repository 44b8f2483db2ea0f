//! The decisions behind each route view: what a view shows for the state
//! it is in, how its forms are validated, and how its page and modal state
//! changes on each user action or API result.

pub mod loadable;
pub mod credential_definitions;
pub mod credentials;
pub mod holders;
pub mod identity_bootstrap;
