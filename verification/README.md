# backend

The verified core of a VPS monitoring backend, written in Verus.

- `src/` is the library. Each module holds one area of the service's logic
  with its contracts and laws: batch commands (`batch`), service monitors
  (`monitor`), traffic accounting (`traffic`), renewals (`renewal`),
  channel encryption (`encryption`), authentication (`auth`),
  notifications (`notify`), agent configuration (`agent_config`), metric
  queries (`metrics`), OAuth2 login (`oauth`), the HTTP API's decisions
  (`api`, `errors`) and the live-data websockets (`ws`); `text` and `time`
  hold the string and calendar helpers they share.
- `tests/` runs the library on concrete values.
- `app/` is the unverified glue: JSON forms of the API types, tokens, HTTP
  error responses, the OAuth2 and webhook HTTP calls, and the websocket
  loops.
