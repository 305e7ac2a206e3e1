# vvclient

A signalling client for a media room service, with its core verified by
Verus.

The client connects to the server over a websocket, opens a session for a
user in a room, and keeps the host application informed about the room:
who joined and left, which streams each user publishes and whether they
are muted, chat messages and key/value tree updates. The host asks for
transports, publishes and subscribes to streams; each request is answered
through a callback.

## Layout

- `src/` – the verified library.
  - `proto/` – the wire format: the packet envelope, request and response
    bodies rendered as JSON text, server pushes, error codes.
  - `client/` – the delivery queue with sequence numbers and
    acknowledgements (`xfer`), the session and heartbeat decisions of the
    connection worker (`worker`), the websocket frame state (`frames`),
    server address checks (`endpoint`) and connection settings.
  - `glue/` – the room state machine the host talks to (`client`): users,
    their streams, pending requests and the callbacks they cause; the
    records exchanged with the host (`defines`); the record of every
    callback made to the host, which only the host's callbacks extend
    (`hearing`); and the laws that tie the callbacks to the host's picture
    of the room (`host_view`).
  - `trace_error/` – a model of the attribute that attaches source
    locations to the errors a function returns, with an evaluator that
    shows what error chains come out, and the reader of the branches of a
    `select!` call from its tokens (`select`).
  - `kit/` – small string, byte and certificate helpers.
- `tests/` – tests of the library on concrete values.
- `app/` – the program around the library: the websocket connection, the
  worker loop that performs the I/O and waits, the TLS verifier, the
  runtime, and reading server JSON into the library's types.
