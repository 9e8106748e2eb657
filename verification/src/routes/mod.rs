//! The decisions of the HTTP handlers: what each endpoint checks and what it answers.
pub mod auth;
pub mod games;
pub mod sessions;
pub mod slug;
pub mod users;
