//! Authenticate by oidc: verifies an ID token against the issuer's published
//! keys and the nonce.
//!
//! The verifier does what `OpenID Connect` Core 3.1.3.7 asks of a relying party:
//! the signature is checked against the issuer's published keys, the `iss` is
//! the issuer the node trusts, the `aud` names the node's client id and an
//! `azp`, where there is one, is that client id too, `exp` has not passed and
//! `nbf` has come, with the configured leeway, and the subject is the value
//! that was claimed.
//!
//! The nonce is the node's own. Whoever sent the authentication request tells
//! the verifier the nonce with [`Verifier::issued`]; a token must then carry a
//! nonce that is outstanding, and the nonce is spent when the token proves, so
//! an ID token replayed later is refused. A node that takes ID tokens it never
//! asked for, as a machine presenting one as a bearer, says so with
//! [`Verifier::without_nonce`], and gives replay protection up knowingly.
//!
//! Offline throughout (ADR-0045): the key set is configuration, a JWKS
//! document handed to [`Jwks::parse`], never fetched from `jwks_uri`, and
//! rotated by whoever rotates configuration. RS256 and ES256 are verified; any
//! other algorithm, `none` and the HMAC family included, is refused by name.
//! `at_hash` and `c_hash` are not checked, because no access token or code
//! reaches this verifier; `acr` and `auth_time` are authorization's.
//!
//! A node that expects one account says so with
//! [`Verifier::expecting_principal`]: the token's `upn`, else its
//! `preferred_username`, must then be the same account, whichever way either
//! was spelled (ADR-0054). Without it nothing about the name is asked.
//!
//! Reading the compact form of a token, and reading a claim as a user
//! principal name, is the identify capability's. The verifier takes what came of
//! it as a [`Compact`].
pub mod authenticator;
pub mod base64url;
pub mod call_laws;
pub mod clock;
pub mod error;
pub mod json;
pub mod jwks;
pub mod key_laws;
pub mod laws;
pub mod nonces;
pub mod signature;
pub mod text;
pub mod text_laws;
pub mod token;
pub mod token_laws;

pub use clock::now;
pub use error::AuthenticateError;
pub use authenticator::Verifier;
pub use jwks::{Algorithm, Jwks};
pub use token::{Account, Claims, Compact, Presented, Verified, TOKEN};
