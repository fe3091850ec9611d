# openai_oxide

The verified core of an OpenAI API client, written in Verus.

- `src/` is the library. Every function in it carries a contract that Verus
  proves: client configuration (`config`, `azure`, `cloudflare`,
  `openrouter`), per-request options and how they merge
  (`request_options`), JSON values with sorted objects (`json`), JSON schema
  normalization for function calling (`schema`), endpoint paths and list
  queries (`resources`), webhook signature checking
  (`resources::webhooks`), and the request and response types (`types`).
  Calls into `base64`, `hmac`/`sha2`, `reqwest`'s header map and the system
  clock go through small trusted wrappers (`encoding`, `headers`) whose
  contracts state what those crates document.
- `app/` holds what Verus does not see: environment variables, timers and
  task spawning, file writes, `serde_json` text (including the wire form of
  the Responses API request, in `app/wire.rs`), and the floating-point retry
  backoff.
- `tests/` runs the library on concrete values.
