//! Verified core of the AirCade party-game backend: input validation, game and
//! session rules, join codes, player colours, error mapping and the decisions
//! that the HTTP handlers take.

pub mod text;
pub mod ids;
pub mod random;
pub mod utils;
pub mod entities;
pub mod errors;
pub mod error;
pub mod auth;
pub mod config;
pub mod dto;
pub mod services;
pub mod routes;
pub mod sessions;
