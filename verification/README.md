# relay_apps

The HTTP applications of a block relay, put together from the relay's services and handlers, with
verified contracts that say what each application serves:

- `app`: the proposer API and the data API;
- `proposer_api_app`: the proposer API alone, with limits on the bodies of requests;
- `data_api_app`: the data API alone;
- `builder_api_app`: the builder API, with limits on bodies, time and rate, on a runtime of the
  caller's that keeps time, or on one that it brings (`builder_api_app_on_own_runtime`);
- `constraints_api_app`: the builder API together with the constraints API.

The contract of each gives the table of routes (which handler answers which method on which
pattern, and the layers around it), the layers around the refusal of requests that no route answers,
the channels that are opened, and the values that services and callers share.

## Layout

- `src/pattern.rs`: route patterns, and which of them fit into one router;
- `src/routing.rs`: the router, its layers, and what is trusted of `axum`, `tower` and `tower_http`;
- `src/channels.rs`: what is trusted of `tokio`'s channels;
- `src/runtime.rs`: what is trusted of `tokio`'s runtimes;
- `src/reply.rs`: what a client is told when a request fails outside of its handler;
- `src/data.rs`, `src/proposer.rs`, `src/combined.rs`, `src/builder.rs`, `src/constraints.rs`: the
  applications;
- `src/laws.rs`: what holds of the applications as a whole;
- `app/`: the applications over services that are described by traits.

Paths, body limits, handlers and services come from the caller. A handler is handed over as the
`MethodRouter` that `axum::routing::any` makes of it.
