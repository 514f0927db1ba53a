# warden_worker

A Bitwarden-compatible server core for Cloudflare Workers, written in Verus.

- `src/` is the verified library: the JSON model and decoders of the
  vault's records (users, items, imports), the rules of the account,
  administration and sync endpoints (prelogin, registration with the
  e-mail allowlist, master-password and e-mail changes, administrator
  checks), the access-token checks (signature and expiry under the
  signing secret, claims, security stamp, device) and the request routing
  decision. Each
  public function carries a contract; `src/laws.rs` states and proves the
  properties that span several functions.
- `app/` is the Worker around it: the fetch event, the durable object,
  the HTTP routes, D1 queries, clocks and random ids.
- `tests/` runs the library on concrete values.
