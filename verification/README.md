# server

The verified core of a WebRTC game-session streaming server. A client opens
a session with a WHIP request carrying an SDP offer; it then streams H264
video tracks, which the server records to MP4, and data channels, whose
contents are written to the session's directory. A REST interface lists the
stored sessions.

Layout:

- `src/` — the library, verified with Verus: message types, path joining
  that cannot leave a directory, the SDP model and offer/answer checks, the
  codec table, the WHIP request and session shutdown decisions, the video
  track recorder, the data channel decisions and the REST paths and errors.
- `tests/` — tests of the library.
- `app/` — the executable around it: HTTP routing (axum), WebRTC plumbing
  (webrtc-rs), GStreamer muxing, file I/O, logging and the serde forms of the
  message types.
