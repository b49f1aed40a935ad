# mediasoup_demo

A small video room server. Participants connect over a WebSocket, publish audio and video
through [mediasoup](https://mediasoup.org), receive what the others in their room publish, and
a room can be recorded with `ffmpeg`.

The decisions of the server are a verified library, written in Verus. The rest is ordinary Rust
around it.

- `src/` is the library.
  - `participant` turns what happens on one connection into what to do next.
  - `rooms_registry`, `worker` and `server` say which room a client gets into, and on which
    worker a new room runs.
  - `record` and `rtp` say how a stream is published and what the recording program is told.
  - `ids`, `media` and `text` hold what the others are built from.
  - The modules whose names end in `laws` state what holds over many calls.
- `tests/` runs the library on concrete values.
- `app/` is the server: the command line, HTTP and WebSockets, JSON, the media engine and the
  recording process.

The library trusts four functions of other crates: `Uuid::new_v4` and the text form of a UUID
(`uuid`), `to_string` on text (`serde_json`), and `get` (`num_cpus`). What it takes for granted of
each is said where it is called.
