# login_service

The sign-in logic of a gRPC account service, verified with Verus.

- `src/` — the verified library:
  - `login.rs`: the sign-in exchange as a state machine (`LoginFlow::begin`, `step`, `step_at`)
    with its exact transition relation (`spec_begin`, `spec_next`).
  - `oauth.rs`: the calls made to Facebook and Google.
  - `user_store.rs`: the conditional user-table write and the meaning of its outcome.
  - `identity.rs`: the user identifier (SHA-256 then RFC 1924 base85, through `sha2` and
    `base85`) and the token claims.
  - `clock.rs`: the wall clock, through `chrono`.
  - `json_object.rs`: the string-member JSON objects the providers answer with.
  - `error.rs`: refusals and their status.
  - `laws.rs`: properties across steps of the exchange.
- `app/` — the unverified driver: HTTP calls (reqwest), the DynamoDB write, JWT signing
  (jsonwebtoken, serde) and the conversion of refusals into gRPC statuses (tonic).
- `tests/` — tests of the library on concrete values.
