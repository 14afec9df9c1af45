//! Authentication: cookies, token claims and the authenticated user.
pub mod cookie;
pub mod jwt;
pub mod middleware;
