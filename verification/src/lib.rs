//! The decision logic of a small chat-room web service: users and their
//! password hashes, chat rooms with optional passwords, the view models that
//! the pages are rendered from, and the login and sign-in exchanges.
//!
//! Everything that talks to the network, the database or the template engine
//! lives in the application crate; this library holds the rules it follows.

pub mod password;
pub mod auth;
pub mod models;
pub mod database;
pub mod templates;
pub mod pages;
