//! Sound effects and status messages that the game rules ask for.

use vstd::prelude::*;

verus! {

/// Sound effects started by the rules.
#[derive(Debug, Clone, Copy, PartialEq, Eq, Structural)]
pub enum sfxenum_t {
    sfx_pistol,
    sfx_itemup,
    sfx_wpnup,
    sfx_getpow,
    sfx_oof,
    sfx_pstop,
    sfx_swtchn,
    sfx_swtchx,
    sfx_stnmov,
    sfx_sawup,
    sfx_sawidl,
    sfx_dbopn,
    sfx_dbload,
    sfx_dbcls,
    sfx_bfg,
    sfx_pldeth,
    sfx_dmpain,
    sfx_popain,
    sfx_slop,
    sfx_telept,
    sfx_posit1,
    sfx_posit3,
    sfx_sgtatk,
    sfx_vilact,
    sfx_boscub,
    sfx_skeswg,
    sfx_kntdth,
    sfx_bspact,
    sfx_doropn,
    sfx_dorcls,
    sfx_bdopn,
    sfx_bdcls,
    sfx_pstart,
}

/// Messages shown to the player.
#[derive(Debug, Clone, Copy, PartialEq, Eq, Structural)]
pub enum Message {
    GOTARMOR,
    GOTMEGA,
    GOTHTHBONUS,
    GOTARMBONUS,
    GOTSTIM,
    GOTMEDINEED,
    GOTMEDIKIT,
    GOTSUPER,
    GOTBLUECARD,
    GOTYELWCARD,
    GOTREDCARD,
    GOTBLUESKUL,
    GOTYELWSKUL,
    GOTREDSKULL,
    GOTINVUL,
    GOTBERSERK,
    GOTINVIS,
    GOTSUIT,
    GOTMAP,
    GOTVISOR,
    GOTMSPHERE,
    GOTCLIP,
    GOTCLIPBOX,
    GOTROCKET,
    GOTROCKBOX,
    GOTCELL,
    GOTCELLBOX,
    GOTSHELLS,
    GOTSHELLBOX,
    GOTBACKPACK,
    GOTBFG9000,
    GOTCHAINGUN,
    GOTCHAINSAW,
    GOTLAUNCHER,
    GOTPLASMA,
    GOTSHOTGUN,
    GOTSHOTGUN2,
    MSGOFF,
    MSGON,
    /// "You need a blue key to activate this object".
    PD_BLUEO,
    /// "You need a red key to activate this object".
    PD_REDO,
    /// "You need a yellow key to activate this object".
    PD_YELLOWO,
    /// "You need a blue key to open this door".
    PD_BLUEK,
    /// "You need a red key to open this door".
    PD_REDK,
    /// "You need a yellow key to open this door".
    PD_YELLOWK,
    /// Gamma correction level 0 to 4.
    GAMMALVL(u8),
}

} // verus!
