# flags_2_env_api_server

The flags-2-env API server, with its logic verified by Verus.

- `src/config.rs`: `ApiConfig::from_map`, the server settings read from a
  resolved environment map.
- `src/lifecycle.rs`: the service lifecycle (started, draining) and the laws
  that readiness implies startup and that a drain is never undone.
- `src/surface.rs`: the route table, the path lookup, and the reply of every
  route (status, `no-store`, content type, body) for a lifecycle state.
- `src/run.rs`: the decisions of a server run, one step per observed event,
  with the law that a run completes only after every stage succeeded.
- `app/`: the program around the library: environment reading, logging,
  axum wiring, JSON encoding, signals and the run loop.
- `tests/`: tests of the library.
