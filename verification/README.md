# rumia

A small top-down shooter built on macroquad, split in two:

- `src/` is a Verus-verified library with the game's discrete logic: a name
  table with hash-map semantics (`table`), the PICO-8 palette (`palette`),
  bullet trails (`trail`), the fixed particle pool (`particle`), the enemy pool
  and action choice (`enemy`), weapon volleys (`weapon`), and the player's
  steering, animation, weapon selection, sprite lookup and afterimage shift
  (`rumia`).
- `app/` is the game itself: input, drawing, and all continuous motion
  (positions, velocities, timers and randomness in floating point).

`tests/` exercises the library on concrete values.
