# control_api

The decisions of a multi-tenant control API, written in Verus: who may do what,
which checks come first, what is written to the database, what is published and
what is answered.

- `src/` is the library. Each endpoint is a function from what is known so far to
  what to do next. It computes on plain values and is verified against its
  contract. What holds of several functions together stands beside them as public
  proof functions.
- `tests/` runs the library on concrete values.
- `app/` is the service around the library: routes, SQL, HTTP and the ports to the
  other services. It performs the steps that the library asks for and hands back
  what came of them.

A few small functions hand a call to an outside crate (`serde_json`, `chrono`,
`uuid`, `sha2`, `hex`, `base64`, `urlencoding`, `rand`, `jsonwebtoken`). Their
contracts are not proved; each one's comment says what it claims. They stand in
`text.rs`, `ids.rs`, `json.rs`, `jwt.rs`, `clock.rs` and `digest.rs`.
