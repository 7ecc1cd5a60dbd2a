# harbor-core

The verified core of Harbor, a local-first registry and runtime for AI agents
and MCP servers. Every decision Harbor makes about packages lives in `src/`
and is proved with Verus against its `requires`/`ensures` contract:

- `cache` — the `~/.harbor` layout; package directories never leave `packages/`,
  grant files never live under it.
- `validate`, `package` — the ordered push checks, the packaged file set
  (`.git/` and old archives excluded, byte-ordered), archive names and modes.
- `checksum` — `sha256:<hex>` checksums (SHA-256 and hex encoding come from the
  `sha2` and `hex` crates behind trusted wrappers).
- `run` — run-target parsing, archive integrity verdicts (checksum before
  extraction), confined extraction destinations, OS checks, environment plans;
  `run::runtime` — Python/Node runtime plans, Node release selection and
  integrity, and the step-by-step search for a Node runtime; `run::extract` —
  entry path safety; `run::pipeline` — the preparation of an archive as a state
  machine (cache before download, extraction only into an empty destination
  and only of safe entries, a populated destination reused as it is).
- `github` — GitHub URL parsing, commit SHAs, tarball entries, language
  detection and manifest inference.
- `permissions` — which declared permissions still need a decision.
- `registry_client` — endpoint URLs, the multipart upload body, error mapping.
- `push` — who publishes where, and how a refused upload is reported.
- `gateway`, `ui` — MCP gateway routing and naming, the JSON-RPC replies it
  sends, the local panel's routes.

`app/` is the command-line program around the library (terminal, files,
processes, HTTP). `tests/` exercises the library on concrete values.
