# color_palette

A small REST client for Qt Quick front ends, with its logic verified by Verus.

- `src/` is the verified library: status classification (`status`), string
  helpers (`text`), URL rules (`url`), request and effect types (`request`),
  the shared service settings (`service`), JSON reply access over `serde_json`
  (`json`), and the state machines of the login element (`login`), the
  paginated resource (`paginated`), the REST service element (`rest`) and the
  host monitor (`monitor`). Operations return the effects to carry out
  (signals to emit, requests to send, token changes) in order.
- `app/` holds the Qt Quick elements, the Tokio runtime and the `reqwest`
  client; it sends the planned requests and feeds the replies back.
- `tests/` runs the library on concrete values.
