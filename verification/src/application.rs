pub mod dto;
pub mod events;
pub mod services;
pub mod utils;
