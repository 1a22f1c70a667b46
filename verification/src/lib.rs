//! Patrol: session authentication and authorization for a reverse proxy.
//!
//! The library holds the decisions of the service (who is let in, which
//! page is shown, which rows are written) and the encodings it relies on.
//! Database access, templates and the HTTP server stand around it.

pub mod api;
pub mod base64url;
pub mod crypto;
pub mod http;
pub mod is_first_admin_registered;
pub mod keys;
pub mod models;
pub mod pages;
pub mod session;
pub mod text;
pub mod token;
pub mod well_known;
