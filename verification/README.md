# srvcs-slope

The slope orchestrator: `slope(x1, y1, x2, y2) = floatdivide(floatsubtract(y2, y1), floatsubtract(x2, x1))`,
composed from two remote float primitives. The service owns the control flow and
does no arithmetic of its own.

- `src/` — the verified library (Verus):
  - `api.rs`: the service identity (`index`), the dependency endpoints (`Deps`),
    and the API description (`ApiDoc`);
  - `reply.rs`: the dependencies, call outcomes, the replies, and how an outcome
    is triaged (`ask`, `forward`, `degraded`, `malformed`, `ok`);
  - `flow.rs`: the evaluation as a state machine: which call or read comes next,
    and what each answer leads to;
  - `status.rs`: HTTP status validation, through the `http` crate;
  - `laws.rs`: properties of the evaluation as a whole, proved.
- `app/` — the HTTP server (axum, reqwest, utoipa): it performs the calls the
  flow asks for, reads each numeric `result` as a float, and renders the reply.
- `tests/` — the library's tests.
