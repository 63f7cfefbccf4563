# slugs

The rules of a two-player artillery duel on destructible terrain, verified
with Verus, and the game that runs them.

- `src/` is the verified library: turn order and selection (`game`), weapons,
  their effects and the structures one can build (`arsenal`), anti-air
  launchers and shield generators (`structures`), what becomes of a projectile
  in flight (`flight`), the order of midpoint displacement that shapes the
  terrain (`terrain`), the index buffers of the shield and terrain meshes
  (`mesh`), base placement (`world`) and the labels and tooltips (`text`).
- `app/` is the Bevy game: rendering, input, physics and everything else that
  works with floating-point positions, velocities and health.
- `tests/` exercises the library on concrete values.
