//! The player's inventory: health, armor, ammunition, weapons, keys and powers.

use vstd::prelude::*;

use crate::sounds::Message;

verus! {

/// Ammunition types.
#[derive(Debug, Clone, Copy, PartialEq, Eq, Structural)]
pub enum ammotype_t {
    am_clip,
    am_shell,
    am_cell,
    am_misl,
    am_noammo,
}

/// Number of real ammunition types.
pub const NUMAMMO: usize = 4;

impl ammotype_t {
    /// Index of the ammunition in the ammo arrays (`am_noammo` has none).
    pub open spec fn idx(self) -> int {
        match self {
            ammotype_t::am_clip => 0,
            ammotype_t::am_shell => 1,
            ammotype_t::am_cell => 2,
            ammotype_t::am_misl => 3,
            ammotype_t::am_noammo => 4,
        }
    }

    /// Index of the ammunition in the ammo arrays.
    pub fn to_usize(self) -> (r: usize)
        ensures
            r as int == self.idx(),
    {
        match self {
            ammotype_t::am_clip => 0,
            ammotype_t::am_shell => 1,
            ammotype_t::am_cell => 2,
            ammotype_t::am_misl => 3,
            ammotype_t::am_noammo => 4,
        }
    }
}

/// Weapon types.
#[derive(Debug, Clone, Copy, PartialEq, Eq, Structural)]
pub enum weapontype_t {
    wp_fist,
    wp_pistol,
    wp_shotgun,
    wp_chaingun,
    wp_missile,
    wp_plasma,
    wp_bfg,
    wp_chainsaw,
    wp_supershotgun,
    /// No pending weapon change.
    wp_nochange,
}

/// Number of real weapons.
pub const NUMWEAPONS: usize = 9;

impl weapontype_t {
    /// Index of the weapon in the `weaponowned` array.
    pub open spec fn idx(self) -> int {
        match self {
            weapontype_t::wp_fist => 0,
            weapontype_t::wp_pistol => 1,
            weapontype_t::wp_shotgun => 2,
            weapontype_t::wp_chaingun => 3,
            weapontype_t::wp_missile => 4,
            weapontype_t::wp_plasma => 5,
            weapontype_t::wp_bfg => 6,
            weapontype_t::wp_chainsaw => 7,
            weapontype_t::wp_supershotgun => 8,
            weapontype_t::wp_nochange => 9,
        }
    }

    /// Index of the weapon in the `weaponowned` array.
    pub fn to_usize(self) -> (r: usize)
        ensures
            r as int == self.idx(),
    {
        match self {
            weapontype_t::wp_fist => 0,
            weapontype_t::wp_pistol => 1,
            weapontype_t::wp_shotgun => 2,
            weapontype_t::wp_chaingun => 3,
            weapontype_t::wp_missile => 4,
            weapontype_t::wp_plasma => 5,
            weapontype_t::wp_bfg => 6,
            weapontype_t::wp_chainsaw => 7,
            weapontype_t::wp_supershotgun => 8,
            weapontype_t::wp_nochange => 9,
        }
    }

    /// The ammunition a weapon uses.
    pub open spec fn ammo_spec(self) -> ammotype_t {
        match self {
            weapontype_t::wp_pistol => ammotype_t::am_clip,
            weapontype_t::wp_shotgun => ammotype_t::am_shell,
            weapontype_t::wp_chaingun => ammotype_t::am_clip,
            weapontype_t::wp_missile => ammotype_t::am_misl,
            weapontype_t::wp_plasma => ammotype_t::am_cell,
            weapontype_t::wp_bfg => ammotype_t::am_cell,
            weapontype_t::wp_supershotgun => ammotype_t::am_shell,
            _ => ammotype_t::am_noammo,
        }
    }

    /// The ammunition a weapon uses.
    pub fn ammo(self) -> (r: ammotype_t)
        ensures
            r == self.ammo_spec(),
    {
        match self {
            weapontype_t::wp_pistol => ammotype_t::am_clip,
            weapontype_t::wp_shotgun => ammotype_t::am_shell,
            weapontype_t::wp_chaingun => ammotype_t::am_clip,
            weapontype_t::wp_missile => ammotype_t::am_misl,
            weapontype_t::wp_plasma => ammotype_t::am_cell,
            weapontype_t::wp_bfg => ammotype_t::am_cell,
            weapontype_t::wp_supershotgun => ammotype_t::am_shell,
            _ => ammotype_t::am_noammo,
        }
    }
}

/// Keys and skull keys.
#[derive(Debug, Clone, Copy, PartialEq, Eq, Structural)]
pub enum card_t {
    it_bluecard,
    it_yellowcard,
    it_redcard,
    it_blueskull,
    it_yellowskull,
    it_redskull,
}

/// Number of key cards.
pub const NUMCARDS: usize = 6;

impl card_t {
    /// Index of the key in the `cards` array.
    pub open spec fn idx(self) -> int {
        match self {
            card_t::it_bluecard => 0,
            card_t::it_yellowcard => 1,
            card_t::it_redcard => 2,
            card_t::it_blueskull => 3,
            card_t::it_yellowskull => 4,
            card_t::it_redskull => 5,
        }
    }

    /// Index of the key in the `cards` array.
    pub fn to_usize(self) -> (r: usize)
        ensures
            r as int == self.idx(),
    {
        match self {
            card_t::it_bluecard => 0,
            card_t::it_yellowcard => 1,
            card_t::it_redcard => 2,
            card_t::it_blueskull => 3,
            card_t::it_yellowskull => 4,
            card_t::it_redskull => 5,
        }
    }
}

/// Power-ups.
#[derive(Debug, Clone, Copy, PartialEq, Eq, Structural)]
pub enum powertype_t {
    pw_invulnerability,
    pw_strength,
    pw_invisibility,
    pw_ironfeet,
    pw_allmap,
    pw_infrared,
}

/// Number of power-ups.
pub const NUMPOWERS: usize = 6;

impl powertype_t {
    /// Index of the power in the `powers` array.
    pub open spec fn idx(self) -> int {
        match self {
            powertype_t::pw_invulnerability => 0,
            powertype_t::pw_strength => 1,
            powertype_t::pw_invisibility => 2,
            powertype_t::pw_ironfeet => 3,
            powertype_t::pw_allmap => 4,
            powertype_t::pw_infrared => 5,
        }
    }

    /// Index of the power in the `powers` array.
    pub fn to_usize(self) -> (r: usize)
        ensures
            r as int == self.idx(),
    {
        match self {
            powertype_t::pw_invulnerability => 0,
            powertype_t::pw_strength => 1,
            powertype_t::pw_invisibility => 2,
            powertype_t::pw_ironfeet => 3,
            powertype_t::pw_allmap => 4,
            powertype_t::pw_infrared => 5,
        }
    }
}

/// Power-up durations, in tics.
pub const INVULNTICS: i32 = 30 * 35;
pub const INVISTICS: i32 = 60 * 35;
pub const INFRATICS: i32 = 120 * 35;
pub const IRONTICS: i32 = 60 * 35;

/// Health of a fully healed player.
pub const MAXHEALTH: i32 = 100;

/// Skill levels.
#[derive(Debug, Clone, Copy, PartialEq, Eq, Structural)]
pub enum skill_t {
    sk_baby,
    sk_easy,
    sk_medium,
    sk_hard,
    sk_nightmare,
}

/// Which game is being played.
#[derive(Debug, Clone, Copy, PartialEq, Eq, Structural)]
pub enum GameMode_t {
    shareware,
    registered,
    commercial,
    retail,
    indetermined,
}

/// The parts of the game session that the rules consult.
#[derive(Debug, Clone, Copy, PartialEq, Eq, Structural)]
pub struct GameEnv {
    pub gameskill: skill_t,
    pub gamemode: GameMode_t,
    /// A network game is running.
    pub netgame: bool,
    /// 0: cooperative, 1: deathmatch, 2: altdeath.
    pub deathmatch: i32,
}

/// Whether the player is alive, dead, or about to respawn.
#[derive(Debug, Clone, Copy, PartialEq, Eq, Structural)]
pub enum playerstate_t {
    PST_LIVE,
    PST_DEAD,
    PST_REBORN,
}

/// The frames a weapon sprite goes through, per weapon: being raised,
/// being lowered, ready, firing, and the muzzle flash.
#[derive(Debug, Clone, Copy, PartialEq, Eq, Structural)]
pub enum WeaponFrame {
    Up(weapontype_t),
    Down(weapontype_t),
    Ready(weapontype_t),
    Attack(weapontype_t),
    Flash(weapontype_t),
}

/// The overlay sprites drawn on the view screen.
#[derive(Debug, Clone, Copy, PartialEq, Eq, Structural)]
pub enum psprnum_t {
    ps_weapon,
    ps_flash,
    NUMPSPRITES,
}

impl psprnum_t {
    /// Index of the overlay in the player's psprite array.
    pub open spec fn idx(self) -> int {
        match self {
            psprnum_t::ps_weapon => 0,
            psprnum_t::ps_flash => 1,
            psprnum_t::NUMPSPRITES => 2,
        }
    }

    /// Index of the overlay in the player's psprite array.
    pub fn to_usize(self) -> (r: usize)
        ensures
            r as int == self.idx(),
    {
        match self {
            psprnum_t::ps_weapon => 0,
            psprnum_t::ps_flash => 1,
            psprnum_t::NUMPSPRITES => 2,
        }
    }
}

/// An overlay sprite: its frame (`None`: not active), the tics left in the
/// frame and its position on a 320x200 screen.
#[derive(Debug, Clone, Copy, PartialEq, Eq, Structural)]
pub struct pspdef_t {
    pub state: Option<WeaponFrame>,
    pub tics: i32,
    pub sx: i32,
    pub sy: i32,
}

/// The inventory and status of a player.
#[derive(Debug, Clone, Copy)]
pub struct Player {
    pub playerstate: playerstate_t,
    pub health: i32,
    /// Health of the player's map object, mirrored from `health`.
    pub mo_health: i32,
    /// The player's map object is drawn as a blur (partial invisibility).
    pub mo_shadow: bool,
    pub armorpoints: i32,
    /// 0: none, 1: green armor, 2: blue armor.
    pub armortype: i32,
    pub powers: [i32; 6],
    pub cards: [bool; 6],
    pub backpack: bool,
    pub readyweapon: weapontype_t,
    pub pendingweapon: weapontype_t,
    pub weaponowned: [bool; 9],
    pub ammo: [i32; 4],
    pub maxammo: [i32; 4],
    pub bonuscount: i32,
    pub damagecount: i32,
    pub itemcount: i32,
    /// Cheat flags; bit 2 is god mode.
    pub cheats: i32,
    pub refire: i32,
    pub attackdown: bool,
    /// The last message shown to the player.
    pub message: Option<Message>,
    /// The weapon overlay and its muzzle flash.
    pub psprites: [pspdef_t; 2],
    /// Extra light from gun blasts.
    pub extralight: i32,
    /// The use button was already down last tic.
    pub usedown: bool,
    /// Colormap forced by a power-up: 0 none, 1 almost full bright, 32
    /// inverse (invulnerability).
    pub fixedcolormap: i32,
}

/// The player as a mathematical value: arrays become sequences.
pub struct PlayerModel {
    pub playerstate: playerstate_t,
    pub health: i32,
    pub mo_health: i32,
    pub mo_shadow: bool,
    pub armorpoints: i32,
    pub armortype: i32,
    pub powers: Seq<i32>,
    pub cards: Seq<bool>,
    pub backpack: bool,
    pub readyweapon: weapontype_t,
    pub pendingweapon: weapontype_t,
    pub weaponowned: Seq<bool>,
    pub ammo: Seq<i32>,
    pub maxammo: Seq<i32>,
    pub bonuscount: i32,
    pub damagecount: i32,
    pub itemcount: i32,
    pub cheats: i32,
    pub refire: i32,
    pub attackdown: bool,
    pub message: Option<Message>,
    pub psprites: Seq<pspdef_t>,
    pub extralight: i32,
    pub usedown: bool,
    pub fixedcolormap: i32,
}

impl View for Player {
    type V = PlayerModel;

    open spec fn view(&self) -> PlayerModel {
        PlayerModel {
            playerstate: self.playerstate,
            health: self.health,
            mo_health: self.mo_health,
            mo_shadow: self.mo_shadow,
            armorpoints: self.armorpoints,
            armortype: self.armortype,
            powers: self.powers@,
            cards: self.cards@,
            backpack: self.backpack,
            readyweapon: self.readyweapon,
            pendingweapon: self.pendingweapon,
            weaponowned: self.weaponowned@,
            ammo: self.ammo@,
            maxammo: self.maxammo@,
            bonuscount: self.bonuscount,
            damagecount: self.damagecount,
            itemcount: self.itemcount,
            cheats: self.cheats,
            refire: self.refire,
            attackdown: self.attackdown,
            message: self.message,
            psprites: self.psprites@,
            extralight: self.extralight,
            usedown: self.usedown,
            fixedcolormap: self.fixedcolormap,
        }
    }
}

/// God mode cheat flag.
pub const CF_GODMODE: i32 = 2;

/// Bounds that keep all counters of the player far from overflow.
pub open spec fn player_wf(p: PlayerModel) -> bool {
    &&& -1_000_000 <= p.health <= 1_000_000
    &&& 0 <= p.armorpoints <= 1_000_000
    &&& p.ammo.len() == 4
    &&& p.maxammo.len() == 4
    &&& p.powers.len() == 6
    &&& p.cards.len() == 6
    &&& p.weaponowned.len() == 9
    &&& p.psprites.len() == 2
    &&& forall|i: int| 0 <= i < 4 ==> 0 <= #[trigger] p.maxammo[i] <= 100_000
    &&& forall|i: int| 0 <= i < 4 ==> !p.backpack ==> #[trigger] p.maxammo[i] <= 50_000
    &&& forall|i: int| 0 <= i < 4 ==> 0 <= #[trigger] p.ammo[i] <= p.maxammo[i]
}

} // verus!
