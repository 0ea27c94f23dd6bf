//! Time-bounded signed session tokens.
//!
//! A token carries an opaque payload together with two timestamps: the
//! instant from which it is valid and the instant at which it expires.
//! [`encode`] issues a token, [`decode`] verifies one and hands the payload
//! back; [`encode_at`], [`encode_internal`] and [`decode_internal`] do the
//! same at an instant given by the caller instead of the system clock.
//!
//! Signing, signature checking and the wire encoding belong to the
//! `jsonwebtoken` crate.  The validity window and its enforcement, with a
//! fixed tolerance for clock skew, are this crate's own and are verified:
//!
//! - [`duration`]: spans of time and their sum;
//! - [`claims`]: what a token carries, and the window given at issue;
//! - [`window`]: the check of a window against the clock;
//! - [`token`]: issuing and verifying, and what holds of the two together;
//! - [`signer`]: the calls into `jsonwebtoken`, with what is trusted of them;
//! - [`key`], [`error`]: keys and reasons for refusal.

pub mod claims;
mod clock;
pub mod duration;
pub mod error;
pub mod key;
pub mod signer;
pub mod token;
pub mod window;

pub use claims::Claims;
pub use claims::Envelope;
pub use duration::Duration;
pub use duration::NANOS_PER_SEC;
pub use error::Error;
pub use error::SignerError;
pub use key::DecodingKey;
pub use key::EncodingKey;
pub use token::decode;
pub use token::decode_internal;
pub use token::encode;
pub use token::encode_at;
pub use token::encode_internal;
pub use token::validate;
pub use window::check_window;
pub use window::LEEWAY;
