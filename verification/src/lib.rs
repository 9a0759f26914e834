//! Courier: decision logic of a tunnelling server and client.
pub mod text;
pub mod protocol;
pub mod registry;
pub mod validation;
pub mod errors;
pub mod auth;
pub mod config;
pub mod tunnel_manager;
pub mod proxy;
pub mod session;
pub mod db;
pub mod handlers;
pub mod access_log;
