//! Requests and answers of the authentication endpoints.
use vstd::prelude::*;
use crate::application::dto::server_dto::ServerItem;
use crate::domain::models::user::UserStatus;

verus! {

/// A ban that still keeps the user out of a server.
#[derive(Debug)]
pub struct BanInfo {
    pub server_id: i32,
    pub server_name: String,
    pub banned_until: Option<String>,
}

#[derive(Debug)]
pub struct SignupRequest {
    pub username: String,
    pub password: String,
}

#[derive(Debug)]
pub struct SignupResponse {
    pub id: u128,
    pub username: String,
}

#[derive(Debug)]
pub struct LoginRequest {
    pub username: String,
    pub password: String,
}

#[derive(Debug)]
pub struct LoginResponse {
    pub access_token: String,
    pub id: u128,
    pub username: String,
}

#[derive(Debug)]
pub struct RefreshRequest {
    pub refresh_token: String,
}

#[derive(Debug)]
pub struct RefreshResponse {
    pub access_token: String,
}

#[derive(Debug)]
pub struct LogoutResponse {
    pub message: String,
}

#[derive(Debug)]
pub struct MeRequest {
    pub id: u128,
    pub token: String,
}

#[derive(Debug)]
pub struct UpdateStatusPayload {
    pub status: UserStatus,
}

/// Everything a client needs after it logs in.
#[derive(Debug)]
pub struct MeResponse {
    pub id: u128,
    pub username: String,
    pub display_name: Option<String>,
    pub avatar_url: Option<String>,
    pub servers: Vec<ServerItem>,
    pub pending_bans: Vec<BanInfo>,
}

} // verus!
