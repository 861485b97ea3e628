# bevy_tween

The time logic of a tweening and keyframe animation library, verified with
Verus. A tween works in a span of an animation's timeline; timers and players
advance time, repeat, wrap around or ping-pong; each frame decides which tweens
a tick touches and what progress they get; and the applying systems decide
what to write where, reporting each failure once while it lasts.

The library takes plain values: entity ids as `u64`, asset ids as `u128`,
durations in nanoseconds. It returns the actions to take. The engine itself
(queries, commands, plugins) is not a dependency of this crate; `app/` shows
the glue for the tweener system (`run_tweener_system`), which builds the
tweeners' states from their `f32` timers, asks the library, and carries out
its actions.

Layout:

- `src/`: the verified library. `duration` and `span` model time and spans;
  `repeat`, `player` and `timer` the playback state and ticking decisions;
  `tweener` and `systems` what a tweener's tick does to its tweens;
  `combinator`, `builder` and `tween_builder` how animations are laid out;
  `apply`, `world_set`, `interpolation`, `sampling`, `target` and `event`
  the per-frame systems.
- `app/`: what computes on `f32` (easing curves, the seconds-based timer,
  progress ratios, curve sampling) and the conversions to `std` and
  `bevy_time_runner` types.
- `tests/`: tests on concrete values.
