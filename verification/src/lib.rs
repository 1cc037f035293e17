//! The authorization state machine of a music-streaming companion: anti-forgery
//! state tokens, the authorization exchange with the provider, the credential
//! that results from it, and the session state derived from that credential.

pub mod encoding;
pub mod decimal;
pub mod form;
pub mod model;
pub mod oauth;
pub mod persist;
pub mod session;
pub mod token;
