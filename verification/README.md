# authenticate-oidc

Authenticate by oidc: verifies an ID token against the issuer's published keys
and the nonce.

It verifies an ID token's RS256 or ES256 signature against a JWKS document held
as configuration, then issuer, audience, `azp`, expiry with leeway, the subject
and a nonce the node issued, spent once. It never fetches `jwks_uri` or a
discovery document (ADR-0045), and it does not look at `at_hash` or `c_hash`.

## Layout

- `src/` is the library, in Verus. `jwks` holds the issuer's keys,
  `authenticator` the verifier, `nonces` the nonces it has outstanding, `token`
  what is presented and read, and `laws` what holds of all of it together.
- `src/json.rs`, `src/signature.rs` and `src/clock.rs` call out: to
  `serde_json`, to `rsa` and `p256`, and to the machine's clock. Each call is
  said there, with what is claimed of it and not proved.
- `app/` puts the library behind the authenticate capability, which shares a
  verifier between threads, and reads tokens with the identify capability.
