# ose_engine

A rules engine for Old-School Essentials play, written in Verus: characters,
combat rounds, dungeon exploration, encounters, treasure and experience, and
the loading of adventure modules. Every function of the library carries a
`requires`/`ensures` contract that Verus proves.

## Layout

- `src/text.rs`, `src/dice.rs`: rendering of numbers, text comparison, dice
  notation and rolling.
- `src/model.rs`, `src/state.rs`, `src/state/`: characters, monsters, combat,
  the dungeon, time and light, and the whole game state.
- `src/rules.rs`, `src/rules/`, `src/equipment.rs`, `src/bestiary.rs`: the
  game's tables (attack matrix, saving throws, thief skills, equipment,
  monsters) and the adventure module format.
- `src/engine/`: the actions a game master or a player takes, each a
  function from the game state and the request to a result.
- `app/`: reading adventure modules and their monster lists from disk.
- `tests/`: tests of the library on concrete values.

## Randomness

Dice are rolled through one trusted function, `dice::random_between`, whose
contract states only that the result lies in its range. Where a decision
rests on a roll, a public function takes the roll as an argument and states
exactly what comes out for each value (for example
`exploration::listen_at_door_rolled`, `exploration::search_room_rolled`,
`exploration::wandering_from_rolls`, `encounter::actions::roll_encounter_with`);
the function that rolls the dice calls it.
