# Glide

Glide is a screen recorder with two ways of zooming: a live camera driven by
keyboard and mouse-wheel gestures while recording, and a "demo mode" that
re-renders a raw recording with a spring-damped camera that follows the
logged cursor.

The decision logic of the recorder is written in Verus and proved against
its contracts:

- `src/otf.rs`: the gesture-driven zoom state machine, in exact fixed-point
  zoom units, and the laws it keeps (valid zoom range, double-tap resets,
  scroll round trips).
- `src/hooks.rs`: how raw keyboard and mouse hook callbacks become gestures
  (double-tap detection with auto-repeat suppression, Shift+wheel).
- `src/events.rs`: the demo-mode event log and the camera target read from
  it (lookahead cursor, idle zoom-out).
- `src/clock.rs`: capture, encode and render timestamps (strictly increasing
  video timestamps, gap-tolerant audio timestamps).
- `src/capture.rs`: pixel work on captured frames (row packing, cursor
  patch clipping and copying, BGRA to RGBA).
- `src/media.rs`, `src/pipeline.rs`: encoder choice and settings, packet
  routing, start checks, event-log location.
- `src/cli.rs`, `src/config.rs`, `src/panels.rs`, `src/ui.rs`,
  `src/icons.rs`, `src/overlay.rs`, `src/tracker.rs`, `src/text.rs`: command
  line, settings and the state of the windows.
- `src/channel.rs`: the crossbeam channels, as trusted declarations.

`app/` is the command-line program around the library: capture threads,
FFmpeg encoding, muxing and rendering, the settings file and the floating
point spring physics of the camera. `tests/` exercises the library on
concrete values.
