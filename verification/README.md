# creator_signal_auth

Authentication and admission decisions for the Creator Signal build of a log server, stated in
contracts and proved with Verus:

- **Automation identities** (`automation`, `policy`, `template`, `scoped_automation`). Three fixed
  machine identities may each do one thing: ingest, run bounded aggregate queries that fill a
  template of the policy, or reconcile governed dashboards.
- **OpenID Connect** (`oidc`). Authorization code with PKCE, one-time state that is bound to the
  browser, nonce, RS256 signatures, verified email, a required role, bindings of email addresses to
  subjects, and opaque sessions that are kept by the server.

`src/` decides, and holds what `text`, `digest` and `json` need for that. It does no input or
output: flows that alternate decisions and outside work (`scoped_automation_middleware`, `login`,
`callback`, `token_validator`) are step functions from a stage and an event to the next stage and
action. `app/` runs them against axum, reqwest, the file system and the stores of a host.

Each module states its spec functions first, then the functions that are proved against them, and
last the laws: public proof functions on what holds over several calls.
