pub mod access;
pub mod auth_service;
pub mod channel_service;
pub mod message_service;
pub mod roster;
pub mod server_service;
