# hutopia

Hutopia is a central **relay** server (Google sign-in, accounts, session
tokens) and user-hosted **space** servers that load plugins, such as a
chat, and let the relay vouch for their users.

- `src/` is the library: the decisions of every route, the in-memory
  token stores, the space's authentication cache, plugin loading rules,
  the chat's sessions and web socket state, the UUID wire encoding and
  the Ed25519 key handling, each with its contract, verified by Verus.
- `app/` is the servers around it: HTTP with actix-web, the database
  with diesel, requests to Google and to the relay with reqwest, plugin
  libraries with libloading, the wire codec with `protocol`, and the
  browser widgets.
- `tests/` runs the library on concrete values.
