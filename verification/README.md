# yew-ui

The decision logic of a video-call host component, verified with Verus.

- `src/host.rs`: the host's state (`Host`), the messages it sends itself when
  the meeting's settings change (`Host::rendered`), the capture task each
  message starts (`Host::update`), when a capture loop stops
  (`Host::keeps_running`), and which encoded frames are key frames
  (`KeyFrameCounter`, `frame_action`), with the laws that tie them together.
- `src/model.rs`: websocket frames to media packets, and the names of
  WebCodecs chunk types and audio sample formats, read and written.
- `app/`: the browser side (yew component, WebCodecs pipelines, shared
  atomic flags); it asks the library for every decision.
- `tests/`: concrete scenarios for each function and law.
