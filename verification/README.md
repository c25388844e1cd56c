# wsocket-io

A client for wSocket: realtime pub/sub over WebSockets with presence, history,
connection recovery and push notifications.

When a connection is lost, the client connects anew, subscribes again every
channel that is listened to, and asks for the messages that it missed, until it
is disconnected.

- `src/` is the library, verified with Verus. It keeps the client's state, turns
  every operation into the frame or the HTTP request that is to be sent, and
  turns everything that comes in into the callbacks that are to be called. It
  does no input or output.
  - `json` is JSON values; `codec` moves them to and from `serde_json` and text.
  - `request` is what the client asks the server; `inbound` reads what it sends.
  - `presence`, `channel` and `client` are the state; `call` is the calls of user
    callbacks.
  - `push` is the REST API for push notifications.
  - `laws` states what holds of the library as a whole.
- `app/` is the asynchronous client around it: sockets, tasks, locks and HTTP.
- `tests/` runs the library.
