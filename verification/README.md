# relay

A relay for requests to AI services, verified with Verus. Clients speak the
OpenAI interface; the upstream channels speak their own.

- `src/` is the library: it turns requests and answers into each other's
  formats, decides how a request is forwarded, follows it from the choice of a
  channel to the reply, works out what it costs, and adapts the asset
  interfaces of upstreams. Every public function has a contract
  that Verus proves. Calls of other crates (JSON text, base64, hashes,
  signatures, the clock) stand behind small wrappers whose contracts say what is
  relied on and are believed.
- `app/` is the service round it: HTTP, storage, tasks, serde, and arithmetic in
  floating point. The library holds double-precision numbers by their bits and
  costs as expressions; `app/` computes their values.
- `tests/` run the library on concrete values.
