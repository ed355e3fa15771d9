pub mod avatar;
pub mod clock;
pub mod ids;
pub mod jwt;
pub mod passwords;
