# munic_simulator

A notification-server simulator: it records the notifications that a
telematics notification server posts into trip files, replays trip files (or
archived tracks and presences) to a URL in chronological order, and simulates
live tracks along a route, with custom fields at chosen frequencies. While the
receiving server is down, packets are kept and posted again once it answers.

Layout:

- `src/` — the verified library (Verus):
  - `recorder` — trip file names, which file receives a request, and the bytes
    appended to it (each trip becomes one JSON array);
  - `backlog` — what a sender posts, keeps and drops while the server is down,
    and when a failing live simulation stops;
  - `registry` — the table of running sessions and what they report;
  - `clock` — waits between replayed events, and when custom fields are due;
  - `custom_fields`, `random`, `encoding` — values of custom and simulated
    fields, and their base64 encodings;
  - `settings`, `simulation`, `models`, `text` — settings, the recording
    switch, reference events, notification envelopes, text helpers.
- `tests/` — tests of the library.
- `app/` — the web server (Rocket handlers, files, HTTP posts, timers, route
  geometry in floating point) around the library.
