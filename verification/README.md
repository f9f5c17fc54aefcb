# advciv

Rules engine, proved with Verus, for the calamity, ship-construction and
hand-limit phases of an Advanced-Civilization-style board game.

- `src/cards.rs`, `src/entity.rs`: trade and civilization cards, object identifiers.
- `src/calamities/`: the state of each calamity's resolution and its modifiers,
  and the division of secondary losses.
- `src/resolution/`: one step of each calamity per turn, from the board as plain
  values to the next state and the action to carry out; the order in which
  calamities are resolved.
- `src/selection/`: the choices a human player makes (cities, unit points,
  divisions of a loss, factions), with their panel buttons.
- `src/ships.rs`, `src/ship_phase.rs`, `src/ship_construction.rs`: ship stock,
  fleet, upkeep and building.
- `src/commodity_shed.rs`, `src/round_summary.rs`: the hand limit and the round log.
- `app/`: the save file and the loops that run the calamity steps.
