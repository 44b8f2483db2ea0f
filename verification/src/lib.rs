//! The governance console's logic: the route table, the startup sequence,
//! the shared application state, and the decisions behind each route view
//! (form validation, status classification, page and modal state).

pub mod text;
pub mod config;
pub mod identity;
pub mod api_error;
pub mod routes;
pub mod store;
pub mod startup;
pub mod views;
