# srvcs-vectoradd

Component-wise vector addition as a service: `POST /` takes two vectors and
answers their sum, delegating every component sum to `srvcs-floatadd`.

- `src/` is the verified library (Verus):
  - `service`: the identity `GET /` reports.
  - `reply`: every answer of `POST /`, with its HTTP status and error text.
  - `evaluation`: the step function of an evaluation — length check, one
    dependency call per component in order, stop at the first failure.
  - `laws`: what a whole evaluation answers, proved over the sequence of
    dependency answers.
  - `openapi`: the OpenAPI document of the routes.
- `app/` holds the axum handlers, the JSON shapes (serde / utoipa), and the
  HTTP client; it runs the step function and performs the calls it asks for.
- `tests/` drives the library with a computing `srvcs-floatadd` stand-in.
