//! Issuing of the credentials of an account service: a signed session token,
//! a long random email-verification token, a short numeric password-reset
//! token, and the instants at which the session and reset tokens expire.

pub mod claims;
pub mod clock;
pub mod error;
pub mod expiry;
pub mod random;
pub mod session;
mod text;
