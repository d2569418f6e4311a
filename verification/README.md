# relay-client

Client side of a relay connection: account devices hold a WebSocket to the relay
for presence and control, and submit encrypted payloads for other devices of the
account over HTTP.

- `src/` is the library, verified with Verus. It holds every decision of the
  client and no socket, timer or task.
  - `client`: the operations of the client's users.
  - `lifecycle`: the connection state and what each operation does to it.
  - `supervisor`: the run of one connection, from event to next action.
  - `socket`: what the two halves of an open socket do next.
  - `endpoint`, `relay_url`: where device payloads are submitted.
  - `message`, `error`, `queue`, `http_status`, `text`: the types and texts.
  - `laws`: what holds across operations and steps.
- `app/` runs the library: it dials, reads and writes sockets, sleeps, posts
  requests, and turns messages into JSON and back.
- `tests/` exercises the library on concrete values.
