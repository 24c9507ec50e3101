# virtual_visca

A verified library for an emulated VISCA pan/tilt/zoom camera.

- `src/decode.rs`: decoding of VISCA packets into commands, with the packet
  format stated in `decoded_packet` and laws on what decodes back.
- `src/lib.rs`: the category check `decode` and the `DecodeVisca` trait at
  the crate root.
- `src/visca.rs`: the command types with their range predicates, and the
  reading of a datagram into its payload and its command.
- `src/ptz_camera.rs`: how commands change the cameras' velocities, and the
  laws that the last command setting an axis decides it.
- `src/controls.rs`: keyboard keys to commands, and the laws tying them to the
  camera's motion.
- `src/protocol.rs`: the facts taken from the `grafton-visca` crate (speed
  ranges, speed levels, the home and reset command bytes), each behind a
  trusted wrapper.
- `src/capture.rs`: capture settings.
- `app/`: the command-line program, the UDP socket, the floating-point
  velocities and the camera motion they cause.
