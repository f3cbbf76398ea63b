//! Verified core of a DOOM engine: fixed-point arithmetic, map geometry,
//! map loading and lump lookup, saved maps, pickups, weapon handling, the
//! player's movement and view, monster attack and boss rules, menus and
//! their text, the status bar, sound channels, sector specials and
//! lighting effects.
#![allow(non_snake_case, non_camel_case_types, non_upper_case_globals)]

use vstd::prelude::*;

pub mod actions;
pub mod animate;
pub mod archive;
pub mod boss;
pub mod bytes;
pub mod ceilings;
pub mod channels;
pub mod collide;
pub mod crush;
pub mod damage;
pub mod doors;
pub mod enemy;
pub mod fixed;
pub mod floors;
pub mod geom;
pub mod inter;
pub mod level;
pub mod lumps;
pub mod mapload;
pub mod lights;
pub mod menu;
pub mod movers;
pub mod plats;
pub mod player;
pub mod saveg;
pub mod sectors;
pub mod segs;
pub mod sight;
pub mod sounds;
pub mod stbar;
pub mod switches;
pub mod teleport;
pub mod text;
pub mod think;
pub mod textures;
pub mod user;
pub mod wad;
pub mod weapons;
pub mod zmove;

verus! {

} // verus!
