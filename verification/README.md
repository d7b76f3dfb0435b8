# event_sourcing

An event-sourcing core with machine-checked contracts.

`src/` holds the verified library:

- `sequence` — the order of positions in the event log (`Sequence`, for `i64`).
- `event`, `aggregate`, `stream` — event types, aggregates, stream ids and
  stream definitions: which events belong to which stream, and how an
  aggregate is rebuilt from its stream.
- `repository` — the registry of stream definitions and the pure part of
  loading an aggregate (snapshot, then the events after it).
- `projection::linking` — the stream-linking projection.
- `bus` — the decisions of the buses: consumer groups, the persistent bus
  (registration, start, replay from checkpoints), the projection bus
  (registration, replay per checkpoint, transaction steps; a projection
  that fails on an event during the replay is stopped for the rest of the
  replay and its checkpoint stays behind that event, so the next start
  replays it; published events run every matching projection) and the
  notifying bus listener (direct dispatch of local events, catch-up).
- `infra` — JWT claims, API enums, storable event names, EXIF conversion.

`app/` runs the asynchronous side: stores, channels and tasks that perform
the actions the library decides, the stream linker as a projection handler,
and an in-memory versioned stream store. `tests/` exercises the library.
