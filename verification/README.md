# webhook_manager

A service that keeps the progress of long-running user tasks in Redis and
hands it out over HTTP and WebSocket.

- `src/` is the verified library (Verus): the task model, the key rules
  (`user_id:service:task_id`, `user_id:*`), the choice of the user of a
  listing, the mapping of Redis failures to store errors, the decisions of the
  store operations (listing, read-modify-write, delete), the WebSocket stream
  decisions, and the HTTP error answers.
- `app/` is the server around it: configuration from the environment, the
  axum routes and handlers, the async Redis calls, JSON forms of the types,
  OpenAPI documentation and metrics.
- `tests/` exercises the library on concrete values.

Configuration: `SERVER_ADDRESS` (default `0.0.0.0:8080`), `REDIS_ADDRESS`
(default `redis://127.0.0.1:6379`), `REDIS_EXPIRED` (seconds, default 1800).
