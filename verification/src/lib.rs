//! The verified core of a magic-link user administration service: input
//! validation, token handling, the sign-in flow and the admin panel's rules.
//! Database access, HTTP and mail delivery live in the application around it.

pub mod auth;
pub mod config;
pub mod crypto;
pub mod dto;
pub mod error;
pub mod laws;
pub mod links;
pub mod mail;
pub mod text;
pub mod users;
pub mod validation;
