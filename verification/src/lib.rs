//! Login exchange against a music-streaming service: an application token and
//! a user's name and password are traded for a short-lived session.
//!
//! The crate decides what is sent and what a reply means; it performs no
//! network traffic itself. A caller sends the prepared [`LoginRequest`] and
//! hands the reply back, step by step.

pub mod credentials;
pub mod exchange;
pub mod session;

pub use credentials::TidalCredentials;
pub use exchange::{Diagnostic, Field, LoginRequest, Next, Refusal};
pub use session::{AuthError, Session};
