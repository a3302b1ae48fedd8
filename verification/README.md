# car_host

A host that streams video and controls data to a headset over WebRTC; the
WebRTC handshake is coordinated over a gRPC signaling stream.

- `src/` is the verified library (Verus): the signaling messages and their
  conversions (`messages`, `msg_ext`), the signaling state of a headset
  connection and the decisions taken on each handshake event (`host`), the
  client's decisions (`client`), the ordering gate of the controls channel
  (`media::controls`), the forwarding and pipeline-wiring decisions of the video
  providers (`media::video`), and `video_stream`.
- `app/` is the program around it: command line, gRPC service, peer
  connections, sockets and media pipelines. It performs the actions the
  library decides on.
- `tests/` exercises the library on concrete values.
