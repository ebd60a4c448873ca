//! Core logic of an identity provider: users, sessions, tokens and the
//! decisions the HTTP layer takes on them.

pub mod ids;
pub mod text;
pub mod encoding;
pub mod instant;
pub mod model;
pub mod errors;
pub mod crypto;
pub mod claims_text;
pub mod token_service;
pub mod auth_service;
pub mod user_service;
pub mod persistence;
pub mod api_error;
pub mod config;
pub mod web;
pub mod request_info;
