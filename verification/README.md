# lib: a verified core of the DOOM engine

The library holds the rules and data handling of the game, each public
function with a contract proved by Verus:

- `fixed`, `geom`: fixed-point arithmetic, map geometry, BSP and line sides.
- `wad`, `lumps`, `mapload`, `textures`: the WAD directory, lump and
  texture lookup, and the map lumps (vertexes, sectors, sides, linedefs,
  segs, subsectors, nodes, things, blockmap) and texture lumps read from
  bytes.
- `level`, `movers`, `floors`, `ceilings`, `doors`, `plats`, `lights`,
  `sectors`, `crush`, `switches`, `animate`: sector movers, lighting, line
  specials and switches.
- `player`, `inter`, `user`, `weapons`, `zmove`: pickups, the player's
  movement and view, the weapon overlays and their frames.
- `enemy`, `boss`, `damage`, `sight`, `teleport`: monster attack checks,
  boss deaths, damage to monsters and players, line of sight through the
  BSP tree, and teleporters.
- `segs`, `actions`, `think`: drawing wall segments, carrying out line
  actions, and a player's whole tic.
- `menu`, `text`, `stbar`, `channels`, `sounds`: menus, text layout, the
  status bar and sound channels.
- `saveg`, `archive`, `bytes`: saved maps, saved specials and byte helpers.

Laws that span functions stand as public proof functions beside the
functions they speak of (their names start with `lemma_`).

`tests/` runs the library on concrete values; `app/` is a small program
that reads save-game descriptions and prints lump names.
