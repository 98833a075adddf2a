# ruffle4consoles

The front end of a Flash player for game consoles (PS Vita, Nintendo Switch):
a list of the `.swf` games on the memory card, a per-game configuration menu
that binds gamepad buttons to keyboard keys, and health metrics of the game
loop.

- `src/` is the library, verified with Verus: the game list and the
  configuration menu as state machines driven by controller input, the key
  tables, the configuration's bindings, the glyph texture of the menu font,
  the byte counts and paths the program prints and opens, and the game loop's
  metrics.
- `app/` is the program around it: SDL events, OpenGL drawing, reading and
  writing files, and the Flash player itself.
- `tests/` runs the library on concrete inputs.
