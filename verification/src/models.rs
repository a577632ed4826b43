use vstd::prelude::*;

verus! {

/// What a bearer token says: the user it was issued to (the UUID as its
/// 128-bit value) and the UNIX time, in seconds, after which it expires.
pub struct Claims {
    pub sub: u128,
    pub exp: usize,
}

/// The body of a request that creates or rewrites a note.
pub struct CreateNoteRequest {
    pub title: String,
    pub content: String,
}

/// The body of a request that shares a note with another user.
pub struct ShareRequest {
    pub username: String,
    pub can_write: bool,
}

/// The body of a registration request.
pub struct RegisterRequest {
    pub username: String,
    pub password: String,
}

/// The body of a login request.
pub struct LoginRequest {
    pub username: String,
    pub password: String,
}

/// The answer to a successful registration or login.
pub struct AuthResponse {
    pub token: String,
}

} // verus!
