# metroidvania

The game logic of a metroidvania platformer, written in Verus and proved against its
contracts.

- `src/` is the verified library: tile and object metadata read from Tiled properties, tile
  keys, tile collision masks and the decisions of tile collision resolution, the tile plan of a
  room and the exceptions carried from the player's inventory, room transitions, story entries
  and advancements, creature state machines, player control decisions, menu selection, text
  animation, path and text utilities.
- `tests/` runs the library on concrete values.
- `app/` is the program around it: reading the data files, the serialised forms of the data
  types, the SDL keyboard, and the movement and collision arithmetic done in floating point.
