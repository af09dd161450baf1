# tanks

An isometric WWII tank battle for the web and desktop, built on the Bevy
engine. The game rules that do not depend on floating point are a Verus-verified
library; the engine wiring, rendering and float geometry are an ordinary Rust
program around it.

## Layout

```
src/          the verified library
  version.rs    version string and build label
  effects.rs    xorshift generator, bounded wreckage pool, polygon triangle fans
  terrain.rs    grid mesh indices, height-lookup and slope-neighbour offsets
  tank.rs       teams and the track-band texture pixels
  camera.rs     discrete zoom levels
  weapons.rs    main-gun fire control (designate, lay, fire)
  combat.rs     destruction latch (a tank is destroyed exactly once)
  squad.rs      formation slots for move orders
  input.rs      key axes, click-versus-drag, double-tap detection
  ui.rs         game flow and one-time reveal of the touch controls
tests/        tests of the library
app/          the Bevy game that uses the library
```
