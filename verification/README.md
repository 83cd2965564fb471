# pixel_sim

The decision logic of a pixel-physics sandbox (bevy) and of an animated
triangle (glium), verified with Verus.

- `src/oscillation.rs`: which way the triangle drifts, from its offset
  rounded to hundredths.
- `src/frame.rs`: what the event loop does with a window event.
- `src/controls.rs`: what the keys of one frame ask of the sandbox.
- `src/collision.rs`: when a box-test contact puts a body down on a floor.
- `app/`: the two programs; floating-point physics and drawing stay there.
