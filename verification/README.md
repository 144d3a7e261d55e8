# backend

The decision logic of an online-judge gRPC backend, written in Verus and
proved against its contracts.

- `src/` is the verified library: roles and who may read or write which
  rows, password hashing and checking, the wire and stored forms of times,
  keyset and offset pagination and the cursors that carry it between
  requests, and the decisions each endpoint takes before it touches the
  database.
- `app/` is the thin layer around it: tonic statuses and metadata, chrono
  and protobuf times, and the streams that answer list requests.
- `tests/` runs the library on concrete values.

List cursors are the unpadded Base64 of a pager's own byte layout
(`src/cursor.rs`). They are not encrypted or signed: a client can read a
cursor and can forge one, and the library checks only a cursor's form,
type number and sort key.
