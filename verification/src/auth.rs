//! Data carried to and from the identity service. The service itself is an
//! external collaborator; the surrounding application does the transport and
//! hands these plain values in and out.

use vstd::prelude::*;

verus! {

/// A request to create an account.
pub struct RegisterRequest {
    pub username: String,
    pub email: Option<String>,
    pub password: String,
}

/// The identity service's answer to a registration.
pub struct RegisterResponse {
    pub user_id: u64,
}

/// A request to open a session.
pub struct LoginRequest {
    pub username: String,
    pub password: String,
}

/// The tokens handed out on a successful login or refresh.
pub struct LoginResponse {
    pub access_token: String,
    pub refresh_token: String,
    pub expires_in: u64,
    pub token_type: String,
}

/// A request to exchange a refresh token for fresh tokens.
pub struct RefreshRequest {
    pub refresh_token: String,
}

/// A request to revoke a refresh token.
pub struct LogoutRequest {
    pub refresh_token: String,
}

/// The identity service's answer to a logout.
pub struct LogoutResponse {
    pub status: String,
}

/// The account data of the signed-in user.
pub struct UserInfo {
    pub id: u64,
    pub username: String,
    pub email: Option<String>,
    pub created_at: String,
}

/// The envelope the application hands to its caller for every
/// authentication operation.
pub struct AuthResponse {
    pub success: bool,
    pub user_id: Option<u64>,
    pub access_token: Option<String>,
    pub refresh_token: Option<String>,
    pub expires_in: Option<u64>,
    pub user: Option<UserInfo>,
    pub error: Option<String>,
}

} // verus!
