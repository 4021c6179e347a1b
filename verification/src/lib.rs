//! Authentication and access control for a small server-rendered web
//! application: password hashing, signed session tokens, role-gated request
//! authorization, and the policy that turns authentication failures into
//! externally visible responses.

pub mod config;
pub mod error;
pub mod guard;
pub mod login;
pub mod password;
pub mod rate_limiter;
pub mod register;
pub mod structs;
pub mod templates;
pub mod text;
pub mod token;
