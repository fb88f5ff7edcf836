//! WebShot: turns web pages and HTML into screenshots.
//!
//! The library holds the service's decisions: how a request is
//! authenticated and authorized, which capture targets are accepted, and
//! how a render or capture job moves from one browser step to the next.
//! The browser itself, the HTTP server and the clock live in `app/`.
pub mod approval;
pub mod auth;
pub mod error;
pub mod job;
pub mod v1;
