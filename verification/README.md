# async_sockets

Typed, call-and-response messaging over WebSockets. A server emits events
to its clients, calls them and awaits their responses, and answers their
calls; every message is JSON.

The library in `src/` holds the protocol and its decisions, each with a
contract proved by Verus:

- `json.rs`: JSON documents as plain values, with their mathematical model.
- `event.rs`: event enums as schemas (variant and field names), how an event
  is written (`{"event": <snake_case name>, "args": <fields>}`) and read
  back, and how a response is written.
- `status.rs`: the `Status` of a request and its text.
- `message.rs`: the three kinds of messages (`emit`, `call`, `response`) and
  statuses on the wire, written and read, with the laws that what is read
  is what was written.
- `uuid.rs`: call identifiers.
- `registry.rs`: the calls of a session that await their responses, and what
  the socket's task does with each message handed to it.
- `call.rs`: the steps of a call (queue the listener, send, await, remove the
  listener on failure or timeout, decode).
- `context.rs`: emitting and calling through the channel to the socket's task.
- `session.rs`: which received frames are read, and what a received message
  asks for.
- `options.rs`: the settings of a server.

`app/` is the asynchronous server around it: the `warp` endpoint, the tasks of
a session, the await of a call's response, JSON text by `serde_json`, and the
`socket_events!` macro that gives an enum its schema.
