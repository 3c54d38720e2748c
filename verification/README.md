# game2048

The verified logic of a 2048 tile game drawn with a game engine:

- `state`: the screens of the game and the move that a frame's arrow keys ask for;
- `display`: the colour behind each tile, the text on it and its colour, and
  which cell is drawn at which place;
- `screens`: the messages of the end screens and how their replay button reacts;
- `turn`: everything the board screen changes once a turn has been played;
- `decimal`: decimal text of scores and tiles, with a proof that it is the
  canonical decimal representation.

Every function carries a contract that Verus proves; `tests/` runs them on
concrete values.
