# ws_pubsub

A publish/subscribe relay over websockets. Clients register as publishers or
subscribe to a publisher; subscribers receive what their publisher sends.

The library (`src/`) is verified with Verus. It holds the registries and the
decision logic of each connection, each stated in `requires`/`ensures` and
with proof functions (`law_*`) for the properties that span several calls:

- `state`: the in-process registry of publishers and their broadcast channels.
- `session`: what a connection to the in-process relay does with each frame.
- `core_state`: the relay's state kept in a redis store; each operation
  (register, remove, subscribe, publish, unsubscribe) is a sequence of steps
  that says what to do with each reply of the store.
- `subscriber`: the task that forwards a publisher's channel to a subscriber.
- `store`, `reader`: what each client request amounts to, and the reading of
  a client's websocket.
- `text`: identifiers printed as UUIDs, decimal numbers, store keys.

`app/` is the server around it: the websocket endpoints, the talk with the
store, JSON, and printing. It performs the effects the library asks for and
hands back what happened.
