//! Issue tracker API: the verified domain logic behind the REST handlers.
pub mod auth;
pub mod clock;
pub mod config;
pub mod errors;
pub mod handlers;
pub mod ids;
pub mod models;
pub mod routes;
pub mod text;
pub mod validation;
