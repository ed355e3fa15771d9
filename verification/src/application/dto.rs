pub mod apperror;
pub mod auth_dto;
pub mod channel_dto;
pub mod message_dto;
pub mod server_dto;
pub mod token_dto;
