# fusionauth_jwt_rs

Verification of FusionAuth-issued JWTs against a JSON Web Key Set, written in
Verus: the key selection, algorithm pinning, the policy handed to
`jsonwebtoken`, URL handling and the fetch-and-refetch decisions are proved
against their contracts. `jsonwebtoken`, `rsa`, `sha2` and `base64` do the
cryptography, decoding and the claim checks of a token behind small trusted
wrappers whose contracts restate what their sources show: of an accepted
token, that its signature holds under the pinned algorithm, that its claims
hold the configured issuer and audience and a required `exp`, and that the
`exp`/`nbf` checks passed at some instant (they read the system clock); of a
rejected one, that a header naming another algorithm than the key pins is
answered `UnsupportedAlgorithm`, a signature that does not verify
`InvalidSignature`, and every other error only under the condition of the
`jsonwebtoken` error kind it stands for; with neither `exp` nor `nbf` checked
no clock is read, and a token that meets every check is accepted. The library's own
claim check, `validate_claims`, is verified against a clock value it is given.

Layout:

- `src/` — the verified library.
  - `lib.rs` — `Verifier`: key selection and decoding (`verify_with_jwks`),
    the error mapping, and the step function (`token_step`) that decides when
    the key set is fetched and fetched again; the laws of that state machine.
  - `validation.rs` — `Validation`, its builders, `validate_claims` and its laws.
  - `jwks.rs` — `Jwk`, `Jwks`, key lookup, RSA and decoding keys.
  - `jwt.rs` — the boundary with `jsonwebtoken`.
  - `crypto.rs` — RSASSA-PKCS1-v1_5 verification with SHA-2.
  - `http.rs` — the JWKS URL, base-URL parsing, HTTP status classes.
  - `token.rs`, `error.rs`, `json.rs`, `b64url.rs`, `text.rs` — claims, errors
    and the small outside pieces they rest on.
- `tests/` — tests of the library, end to end with a fixed RSA test key.
- `app/` — the I/O around it: JSON parsing of key sets and claim sets, fetching
  over HTTP (`ureq` natively, `wasi:http` on `wasm32-wasip2`) and the loop that
  runs `token_step`.
