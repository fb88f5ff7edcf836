# WebShot

WebShot turns HTML, or the page at a URL, into a PNG screenshot, behind
Biscuit bearer-token authorization.

- `src/` is the verified library:
  - `error.rs`: the errors a request is answered with, their status codes
    and messages;
  - `auth.rs`: reading the bearer token, verifying it against the root key,
    building the authorizer of an operation and running it into a `Grant`;
  - `approval.rs`: the authorizer run over a token, in stages (`Built`,
    `Approved`, `Answered`) that only the stage before can make, each keeping
    the token it works on;
  - `v1.rs`: the request bodies of `/v1/render` and `/v1/capture`, the check
    of a capture URL, and the start of each endpoint up to the browser;
  - `job.rs`: the steps of a render or capture job as a state machine, with
    the properties it keeps (the page is always closed, the browser context
    always disposed, a success is always the screenshot taken).
- `app/` is the HTTP server (axum) and the browser driver (chromiumoxide),
  which performs the actions a job asks for.
- `tests/` runs the library on concrete requests and tokens.
