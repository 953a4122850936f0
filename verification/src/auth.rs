//! Accounts and tokens: what the backend is asked when a user signs in,
//! registers, signs out, or presents a token.

use crate::request::{Command, Request};
use vstd::prelude::*;

verus! {

/// A user as the backend describes one.
#[derive(Debug, Clone)]
pub struct User {
    pub id: i32,
    pub username: String,
    pub email: String,
    /// Absent where the backend holds none.
    pub display_name: Option<String>,
    pub is_active: bool,
    /// The author that stands for the user.
    pub default_author_id: Option<i32>,
    pub created_at: Option<String>,
    pub updated_at: Option<String>,
}

/// Body of a login request.
#[derive(Debug)]
pub struct LoginRequest {
    pub username: String,
    pub password: String,
}

/// What a successful login returns.
#[derive(Debug)]
pub struct LoginResponse {
    pub access_token: String,
    pub token_type: String,
    pub user: User,
}

/// Body of a registration request.
#[derive(Debug)]
pub struct RegisterRequest {
    pub username: String,
    pub email: String,
    pub password: String,
    pub display_name: String,
}

/// Prepares a login: the request and its body.
pub fn login(backend_url: &str, username: String, password: String) -> (plan: (
    Request,
    LoginRequest,
))
    ensures
        plan.0@ == Command::Login.request(backend_url@, None),
        plan.1.username@ == username@,
        plan.1.password@ == password@,
{
    (Command::Login.prepare(backend_url, None), LoginRequest { username, password })
}

/// Prepares a registration: the request and its body.
pub fn register(
    backend_url: &str,
    username: String,
    email: String,
    password: String,
    display_name: String,
) -> (plan: (Request, RegisterRequest))
    ensures
        plan.0@ == Command::Register.request(backend_url@, None),
        plan.1.username@ == username@,
        plan.1.email@ == email@,
        plan.1.password@ == password@,
        plan.1.display_name@ == display_name@,
{
    (
        Command::Register.prepare(backend_url, None),
        RegisterRequest { username, email, password, display_name },
    )
}

/// Prepares a logout, which presents the token and carries no body.
pub fn logout(backend_url: &str, auth_token: &str) -> (request: Request)
    ensures
        request@ == Command::Logout.request(backend_url@, Some(auth_token@)),
{
    Command::Logout.prepare(backend_url, Some(auth_token))
}

/// Prepares the question whose token this is.
pub fn validate_token(backend_url: &str, auth_token: &str) -> (request: Request)
    ensures
        request@ == Command::ValidateToken.request(backend_url@, Some(auth_token@)),
{
    Command::ValidateToken.prepare(backend_url, Some(auth_token))
}

} // verus!
