//! Remote-unlock gateway core: PIN login with a sliding-window rate limit,
//! short-lived session tokens, Wake-on-LAN framing and the step-by-step plan
//! for delivering a disk passphrase over an interactive remote shell.

pub mod api;
pub mod auth;
pub mod config;
pub mod enroll;
pub mod services;
pub mod text;
