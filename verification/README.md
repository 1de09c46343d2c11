# battle_city

A top-down tank battle game in the manner of Battle City. The game rules are
a Verus library with proved contracts; the game itself runs on Bevy.

- `src/` — the verified rules: sprite sheet animation, the per-frame despawn
  schedule, bullet collision outcomes, player lives and respawning, enemy
  spawning, sprites and direction choice, level items and level progression.
- `tests/` — tests of the library.
- `app/` — the Bevy program: systems, components, assets, physics and input,
  which hand plain values to the library and carry out what it decides.
