# ko_game

Rules of a game server's skill, walking, rebirth and shop handlers, verified with Verus.

`src/` is the library. A handler asks it what a request does: facts go in as plain values, and a
decision, the changed state and the packets to send come out. Every function says in its contract
exactly what it decides, and the promises that span functions stand beside them as `law_` proof
functions. Chance enters in one place, `random::draw`, which is the only item that is trusted.

- `packet`, `instance`, `notices`: what goes over the wire.
- `cast`, `cooldown`, `mana`, `consume`, `route`: a cast from its request to its receipt.
- `hit`, `spell`: the whole-number stages of the damage formulas, and their dice.
- `physical`, `strike`: melee and archery skills.
- `spell_cast`, `spell_area`, `spell_run`: spells, heals and harm over time.
- `buff`, `buff_cast`, `buff_run`: buffs and debuffs.
- `revive`, `transform`, `control`, `warp`: cures and resurrections, transformations, control and
  stealth, teleports.
- `victim`, `npc_damage`: what damage does to players, NPCs and bots.
- `range`, `skills`, `tables`, `constants`, `arith`: what the others share.
- `movement`, `rebirth`, `shopping_mall`: the other handlers.

`app/` is ordinary Rust around the library: sessions, the traits by which the handlers reach the
world, and what has to be computed in floating point.

`tests/` runs the library.
