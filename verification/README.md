# happy_feet

A kinematic character controller for Bevy and Avian in the style of the PhysX
character controller: each move is swept in an up, a side and a down pass,
steps are climbed automatically, and a move whose side or down pass touches
a surface steeper than the slope limit, higher than a step above the feet,
is judged non-walkable and retried as a "walk experiment"; a retry that is
still non-walkable is followed by a recovery sweep downward.

## Layout

- `src/` — the verified core (Verus). It decides; it does not measure.
  - `ground.rs`: the grounding state machine (land, leave, detach) and ground transitions.
  - `stepping.rs`: when the automatic step offset applies.
  - `collision.rs`: collision flags and the step function of one sweep pass.
  - `controller.rs`: the plan of an attempt, the attempt and move state
    machines, the non-walkable verdict (slope validation of the side and
    down contacts), the retry and recovery, the velocity correction.
  - `movement.rs`: how input accelerates the character, when gravity acts, and jumping.
  - `engine.rs`: the engine types carried through (entities, directions, vectors).
- `app/` — the Bevy plugin, components and systems, and all floating point
  geometry (shape casts, projections, angles); it measures, hands the
  results to the core, and carries out what the core decides.
- `tests/` — tests of the core on concrete values.
