# chai_core

The library behind the chai-core daemon, which turns a natural-language
request ("install vim and enable docker") into a NixOS module by asking a
language model for a plan.

`src/` is verified with Verus:

- `nix::parser` — the plan (packages and services) and the rule that a plan
  must name at least one of them.
- `nix::generator` — renders a plan as a NixOS module; service names and their
  aliases map to option paths.
- `nix::validator` — the file name a module is stored under and the verdict
  drawn from `nix-instantiate --parse`.
- `llm::config`, `llm::client` — provider settings, the HTTP request each
  provider gets, timeouts, and how replies and failures are read.
- `json`, `rpc` — JSON values as plain data and the JSON-RPC request.
- `server` — the request handling as a chain of decisions: routing, asking the
  model, decoding its plan, storing the module, and the reply.
- `text` — string equality, decimal text, and trimming.

`app/` is the daemon itself: the Unix-socket server, the HTTP client, file and
process I/O, and the serde forms of the library's types. It runs the decision
chain of `server`, doing the outside work that each step asks for.
