pub mod app_config;
pub mod auth;
pub mod config;
pub mod errors;
pub mod handlers;
pub mod registry;
pub mod response;
pub mod rpc;
pub mod setup;
pub mod store;
pub mod text;
