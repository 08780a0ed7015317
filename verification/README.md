# hsr_optimizer_engine

The core of a turn-based combat team optimizer, written in Verus.

`src/` is the verified library:

- `effects` — timed buffs and debuffs keyed by name (apply: the longer effect
  wins; tick: every effect loses a turn and expired ones drop), with the enemy
  debuff counter kept equal to the number of active debuffs.
- `search` — binomial counts, the lexicographic list of candidate teams
  (through `itertools`), and the greedy lightcone assignment.
- `optimizer` — default relics, ranking of outcomes, sizing of the search and
  the random moves of the annealing search (through `rand`).
- `characters`, `lightcones`, `enemies` — which kit handles an identifier, and
  the kits' logic that does not depend on combat numbers: counter keys (proved
  never to collide), weakness implants, adjacent slots, debuff rotation.
- `models`, `damage`, `weakness`, `text`, `ids` — shared data, the choices the
  damage formula makes, weakness lists, verified text helpers, identifiers.

`app/` holds what stays outside the proofs: the HTTP server, the serde wire
types, the floating-point damage formulas and scoring, and the parallel search
drivers. The turn simulator and the relic catalogue are supplied through the
`Engine` trait.

`tests/` exercises the library on concrete values.
