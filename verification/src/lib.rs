//! Tools that let an agent read and change issues and pull requests on a
//! code-hosting service and an issue tracker.
//!
//! The library performs no input or output. Each tool plans one HTTP exchange
//! (a [`tool::Call`]), the caller carries it out and reports how it ended (a
//! [`http::Reply`]), and [`tool::Call::finish`] turns that into the tool's
//! text or its error.

pub mod text;
pub mod json;
pub mod http;
pub mod tool;
pub mod github;
pub mod jira;
