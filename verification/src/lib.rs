//! Session authentication for a web-service gateway: tamper-evident session
//! tokens with bounded lifetimes, a strict progression of trust levels, and
//! the OAuth redirect/callback handshake that upgrades an anonymous caller
//! to a signed-in user.
//!
//! - [`session`]: the legal session states, their lifetimes, and the errors.
//! - [`envelope`]: the signed payload and its canonical byte form.
//! - [`codec`]: signing and verifying bearer tokens under the secret key.
//! - [`guards`]: typed per-endpoint guards and the sign-in operations.
//! - [`oauth`]: the provider handshake, decided step by step.
//! - [`crypto`]: the trusted boundary to the cryptographic crates.
//! - [`base36`]: the provider's base36 account identifiers.

pub mod base36;
pub mod codec;
pub mod crypto;
pub mod envelope;
pub mod guards;
pub mod oauth;
pub mod session;
