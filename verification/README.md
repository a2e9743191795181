# video_stream

A low-latency video streaming system: devices (cameras, recorders, a
simulator) connect to a platform over QUIC and upload live H.264 segments
or play back recordings; the platform forwards segments to HTTP clients
(server-sent events, byte-range downloads) and keeps latency statistics.

The logic is a library verified with Verus (`src/`); `app/` holds the
servers and the device simulator around it (QUIC, HTTP, files, processes).

## Library modules

- `timestamp`, `detector`, `pacer`: the 90 kHz clock, frame-rate detection
  from timestamps, and pacing of segments at a playback rate.
- `h264`, `keyframe_index`, `live_stream`, `fmp4`, `be_bytes`, `byte_buf`:
  NAL-unit scanning, keyframe indexes, live segment assembly, and the
  fragmented-MP4 boxes.
- `file_stream`, `sources`, `playback`, `forwarding`: readers of recordings,
  the live and playback sources as state machines, the playback controller,
  and the forwarding decisions of a stream session.
- `statistics`, `latency`, `recovery`: per-session latency windows,
  end-to-end latency measurements and alerts, retry policy.
- `protocol`, `http`, `text`: messages between devices and platform, the
  HTTP API's parsing (ranges, commands, file ids) and answers.
- `registry`, `device_manager`, `device_control`, `media_files`,
  `recordings`, `pixels`: devices and their heartbeats, the device's
  answers to control messages, timeline caches, recording lists, and
  pixel conversion.

Laws that span several functions are public proof functions named
`lemma_*` in the module they concern.

## Collections

The device registry, the device manager and the latency statistics keep
their entries in a `Vec` with the invariant that no two entries share an
id, and describe it as a `Map` (or a sequence) by id:

- A `std::collections::HashMap` keyed by a `String` device id has a vstd
  specification only under `obeys_key_model::<String>()`, which vstd does
  not provide and which cannot be assumed here, so no lookup or insertion
  on it can be proved.
- A `dashmap::DashMap` changes its contents through shared references
  (`insert(&self, ..)`), which no contract over a `&self` receiver can
  describe. Held in an opaque struct with `&mut self` methods, its
  contents would still have to be named as a map of plain values, while
  the entries here are the library's own records (device information,
  latency windows holding vectors), whose every field the managers read
  and change. The servers in `app/` keep their `DashMap`s of channels and
  connections and call the verified managers under a lock.


## Layout

- `src/`: the verified library.
- `tests/`: its tests.
- `app/`: `main.rs` runs the platform server, or the device simulator with
  the argument `device`.
