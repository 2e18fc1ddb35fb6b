# gold_lace

The verified core of a procedural "gold lace" screensaver viewer.

`src/` is a Verus library:

- `rng` — the 64-bit xorshift generator, specified step by step.
- `state` — the integer part of the pattern builder: which generator draw
  decides each style flag, selector and coefficient, proved draw by draw.
- `palette` — palette records, stable ordering of ring nodes, the segment
  search of the ring interpolation, and the dense palette table.
- `color` — packed colors, channel averaging, RGBA bytes, table indices.
- `session` — the viewer state: pattern history, palette ring, render size,
  and the key bindings as a step from a key press to a new state and an action.
- `clock` — clock seeds.

`app/` is the viewer program around it: SDL2 window and events, OpenGL
rendering through glow, palette JSON through serde, and every
floating-point computation (profile curve, scalar field, cubic palette
interpolation). It reads `palettes.json` from the working directory.
