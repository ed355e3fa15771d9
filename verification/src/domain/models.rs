pub mod channel;
pub mod direct_message;
pub mod message;
pub mod message_reaction;
pub mod refresh_token;
pub mod server_ban;
pub mod server_member;
pub mod server_model;
pub mod user;
