//! The status bar's state from tic to tic: the face that looks out of it
//! and what it shows, the key boxes, the frag count and the screen palette
//! that tints the view.

use vstd::prelude::*;

use crate::player::{CF_GODMODE, Player, ammotype_t, weapontype_t};
use crate::sectors::MAXPLAYERS;

verus! {

/// Tics per second.
pub const TICRATE: usize = 35;

/// Faces for each of the five pain levels.
pub const ST_NUMPAINFACES: usize = 5;
pub const ST_NUMSTRAIGHTFACES: usize = 3;
pub const ST_NUMTURNFACES: usize = 2;
pub const ST_NUMSPECIALFACES: usize = 3;
/// Faces per pain level.
pub const ST_FACESTRIDE: usize = 8;
/// Offsets of the faces within a pain level.
pub const ST_TURNOFFSET: usize = 3;
pub const ST_OUCHOFFSET: usize = 5;
pub const ST_EVILGRINOFFSET: usize = 6;
pub const ST_RAMPAGEOFFSET: usize = 7;
/// The invulnerable face and the dead face, after all pain levels.
pub const ST_GODFACE: usize = 40;
pub const ST_DEADFACE: usize = 41;
/// How long the faces are held, in tics.
pub const ST_EVILGRINCOUNT: usize = 70;
pub const ST_STRAIGHTFACECOUNT: usize = 17;
pub const ST_TURNCOUNT: usize = 35;
pub const ST_RAMPAGEDELAY: i32 = 70;
/// A health change over this shows the ouch face.
pub const ST_MUCHPAIN: i32 = 20;

/// Angles, in the binary angle measure of a full turn.
pub const ANG45: u32 = 0x20000000;
pub const ANG180: u32 = 0x80000000;

/// The palettes: red ones for pain, gold ones for pickups, green for the
/// radiation suit.
pub const STARTREDPALS: usize = 1;
pub const STARTBONUSPALS: usize = 9;
pub const NUMREDPALS: usize = 8;
pub const NUMBONUSPALS: usize = 4;
pub const RADIATIONPAL: usize = 13;

/// The face state: what it shows, for how many more tics, how important
/// that is, and what it has seen.
#[derive(Debug, Clone, Copy)]
pub struct FaceState {
    pub faceindex: usize,
    pub facecount: usize,
    /// Higher shows over lower until the face times out.
    pub priority: i32,
    /// Tics of held fire left before the rampage face; -1 when not firing.
    pub lastattackdown: i32,
    /// The weapons the face last saw the player own.
    pub oldweaponsowned: [bool; 9],
}

/// The first face of the pain level for `health`: the less health, the
/// more pain.
pub open spec fn pain_offset(health: i32) -> int {
    let h = if health < 100 {
        health as int
    } else {
        100
    };
    ST_FACESTRIDE * (((100 - h) * ST_NUMPAINFACES) / 101)
}

/// The pain level of `health` can be computed in machine words.
pub open spec fn pain_fits(health: i32) -> bool {
    &&& health > i32::MIN + 100
    &&& (100 - health) * 5 <= usize::MAX
}

/// The first face of the pain level for `health`.
pub fn ST_calcPainOffset(health: i32) -> (r: usize)
    requires
        pain_fits(health),
    ensures
        r == pain_offset(health),
{
    let h = if health < 100 {
        health
    } else {
        100
    };
    let d = (100 - h) as usize;
    assert((d * 5) / 101 <= d) by (nonlinear_arith);
    ST_FACESTRIDE * ((d * ST_NUMPAINFACES) / 101)
}

/// What the face sees of the player's attacker this tic: nobody (or the
/// player itself), or another thing at angle `angle` seen from the player.
#[derive(Debug, Clone, Copy, PartialEq, Eq, Structural)]
pub enum Attacker {
    Nobody,
    At(u32),
}

/// Dead: shown over everything.
pub open spec fn face_dead(s: FaceState, pl: Player) -> FaceState {
    if s.priority < 10 && pl.health == 0 {
        FaceState { priority: 9, faceindex: ST_DEADFACE, facecount: 1, ..s }
    } else {
        s
    }
}

/// A weapon owned now that was not (or the other way round).
pub open spec fn weapons_changed(s: FaceState, pl: Player) -> bool {
    exists|i: int| 0 <= i < 9 && #[trigger] s.oldweaponsowned[i] != pl.weaponowned[i]
}

/// Picking up a new weapon: the evil grin.
pub open spec fn face_grin(s: FaceState, pl: Player) -> FaceState {
    if s.priority < 9 && pl.bonuscount != 0 {
        let seen = FaceState { oldweaponsowned: pl.weaponowned, ..s };
        if weapons_changed(s, pl) {
            FaceState {
                priority: 8,
                facecount: ST_EVILGRINCOUNT,
                faceindex: (pain_offset(pl.health) + ST_EVILGRINOFFSET) as usize,
                ..seen
            }
        } else {
            seen
        }
    } else {
        s
    }
}

/// The face turned towards an attacker at `badguy` when the player faces
/// `angle`: straight on when within 45 degrees, else to the side it is on.
pub open spec fn turn_offset(badguy: u32, angle: u32) -> int {
    let (diffang, right) = if badguy > angle {
        ((badguy - angle) as int, (badguy - angle) > ANG180)
    } else {
        ((angle - badguy) as int, (angle - badguy) <= ANG180)
    };
    if diffang < ANG45 {
        ST_RAMPAGEOFFSET as int
    } else if right {
        ST_TURNOFFSET as int
    } else {
        ST_TURNOFFSET + 1
    }
}

/// Attacked by another thing: the ouch face after much pain, else the face
/// turned towards the attacker.
pub open spec fn face_attacked(s: FaceState, pl: Player, oldhealth: i32, attacker: Attacker, angle: u32) -> FaceState {
    if s.priority < 8 && pl.damagecount != 0 && attacker is At {
        if pl.health - oldhealth > ST_MUCHPAIN {
            FaceState {
                priority: 7,
                facecount: ST_TURNCOUNT,
                faceindex: (pain_offset(pl.health) + ST_OUCHOFFSET) as usize,
                ..s
            }
        } else {
            FaceState {
                priority: 7,
                facecount: ST_TURNCOUNT,
                faceindex: (pain_offset(pl.health) + turn_offset(attacker->At_0, angle)) as usize,
                ..s
            }
        }
    } else {
        s
    }
}

/// Hurt otherwise: the ouch face after much pain, else the rampage face.
pub open spec fn face_hurt(s: FaceState, pl: Player, oldhealth: i32) -> FaceState {
    if s.priority < 7 && pl.damagecount != 0 {
        if pl.health - oldhealth > ST_MUCHPAIN {
            FaceState {
                priority: 7,
                facecount: ST_TURNCOUNT,
                faceindex: (pain_offset(pl.health) + ST_OUCHOFFSET) as usize,
                ..s
            }
        } else {
            FaceState {
                priority: 6,
                facecount: ST_TURNCOUNT,
                faceindex: (pain_offset(pl.health) + ST_RAMPAGEOFFSET) as usize,
                ..s
            }
        }
    } else {
        s
    }
}

/// Holding fire: the rampage face after two seconds, then every tic.
pub open spec fn face_rampage(s: FaceState, pl: Player) -> FaceState {
    if s.priority < 6 {
        if pl.attackdown {
            if s.lastattackdown == -1 {
                FaceState { lastattackdown: ST_RAMPAGEDELAY, ..s }
            } else if s.lastattackdown - 1 == 0 {
                FaceState {
                    priority: 5,
                    faceindex: (pain_offset(pl.health) + ST_RAMPAGEOFFSET) as usize,
                    facecount: 1,
                    lastattackdown: 1,
                    ..s
                }
            } else {
                FaceState { lastattackdown: (s.lastattackdown - 1) as i32, ..s }
            }
        } else {
            FaceState { lastattackdown: -1i32, ..s }
        }
    } else {
        s
    }
}

/// God mode or invulnerability: the god face.
pub open spec fn face_god(s: FaceState, pl: Player) -> FaceState {
    if s.priority < 5 && (pl.cheats & CF_GODMODE != 0 || pl.powers[0] != 0) {
        FaceState { priority: 4, faceindex: ST_GODFACE, facecount: 1, ..s }
    } else {
        s
    }
}

/// When the face has timed out it looks ahead, left or right by the random
/// number; then one tic of it passes.
pub open spec fn face_tick(s: FaceState, pl: Player, random: i32) -> FaceState {
    let t = if s.facecount == 0 {
        FaceState {
            faceindex: (pain_offset(pl.health) + random % 3) as usize,
            facecount: ST_STRAIGHTFACECOUNT,
            priority: 0,
            ..s
        }
    } else {
        s
    };
    FaceState { facecount: (t.facecount - 1) as usize, ..t }
}

/// The face after one tic: dead over evil grin over attacked over hurt over
/// rampage over god over looking about.
pub open spec fn face_update(
    s: FaceState,
    pl: Player,
    oldhealth: i32,
    attacker: Attacker,
    angle: u32,
    random: i32,
) -> FaceState {
    face_tick(
        face_god(
            face_rampage(
                face_hurt(
                    face_attacked(face_grin(face_dead(s, pl), pl), pl, oldhealth, attacker, angle),
                    pl,
                    oldhealth,
                ),
                pl,
            ),
            pl,
        ),
        pl,
        random,
    )
}

/// Updates the face for one tic (see `face_update`); `oldhealth` is the
/// player's health a tic ago, `angle` the player's facing, `random` the
/// status bar's random number.
pub fn ST_updateFaceWidget(
    face: &mut FaceState,
    pl: &Player,
    oldhealth: i32,
    attacker: Attacker,
    angle: u32,
    random: i32,
)
    requires
        pain_fits(pl.health),
        old(face).lastattackdown > i32::MIN,
        random >= 0,
        pl.damagecount != 0 ==> i32::MIN <= pl.health - oldhealth <= i32::MAX,
    ensures
        *final(face) == face_update(*old(face), *pl, oldhealth, attacker, angle, random),
        old(face).priority < 10 && pl.health == 0 ==> final(face).faceindex == ST_DEADFACE,
        old(face).priority < 9 && pl.health != 0 && pl.bonuscount != 0 && weapons_changed(
            *old(face),
            *pl,
        ) ==> final(face).faceindex == pain_offset(pl.health) + ST_EVILGRINOFFSET
            && final(face).facecount == ST_EVILGRINCOUNT - 1,
        old(face).priority < 8 && pl.health != 0 && !(pl.bonuscount != 0 && weapons_changed(
            *old(face),
            *pl,
        )) && pl.damagecount != 0 && attacker is At ==> final(face).priority == 7
            && final(face).facecount == ST_TURNCOUNT - 1,
{
    let ghost s0 = *face;
    if face.priority < 10 {
        if pl.health == 0 {
            face.priority = 9;
            face.faceindex = ST_DEADFACE;
            face.facecount = 1;
        }
    }
    let ghost s1 = *face;
    assert(s1 == face_dead(s0, *pl));
    if face.priority < 9 {
        if pl.bonuscount != 0 {
            let mut doevilgrin = false;
            let mut i: usize = 0;
            while i < 9
                invariant
                    i <= 9,
                    face.priority == s1.priority,
                    face.faceindex == s1.faceindex,
                    face.facecount == s1.facecount,
                    face.lastattackdown == s1.lastattackdown,
                    forall|j: int| 0 <= j < i ==> #[trigger] face.oldweaponsowned[j] == pl.weaponowned[j],
                    forall|j: int| i <= j < 9 ==> #[trigger] face.oldweaponsowned[j] == s1.oldweaponsowned[j],
                    doevilgrin == exists|j: int| 0 <= j < i && #[trigger] s1.oldweaponsowned[j] != pl.weaponowned[j],
                decreases 9 - i,
            {
                if face.oldweaponsowned[i] != pl.weaponowned[i] {
                    doevilgrin = true;
                    face.oldweaponsowned[i] = pl.weaponowned[i];
                }
                i += 1;
            }
            assert(face.oldweaponsowned =~= pl.weaponowned);
            if doevilgrin {
                face.priority = 8;
                face.facecount = ST_EVILGRINCOUNT;
                face.faceindex = ST_calcPainOffset(pl.health) + ST_EVILGRINOFFSET;
            }
        }
    }
    assert(*face == face_grin(s1, *pl));
    let ghost s2 = *face;
    if face.priority < 8 {
        if pl.damagecount != 0 {
            if let Attacker::At(badguyangle) = attacker {
                face.priority = 7;
                if pl.health - oldhealth > ST_MUCHPAIN {
                    face.facecount = ST_TURNCOUNT;
                    face.faceindex = ST_calcPainOffset(pl.health) + ST_OUCHOFFSET;
                } else {
                    let diffang: u32;
                    let i: bool;
                    if badguyangle > angle {
                        diffang = badguyangle - angle;
                        i = diffang > ANG180;
                    } else {
                        diffang = angle - badguyangle;
                        i = diffang <= ANG180;
                    }
                    face.facecount = ST_TURNCOUNT;
                    face.faceindex = ST_calcPainOffset(pl.health);
                    if diffang < ANG45 {
                        face.faceindex = face.faceindex + ST_RAMPAGEOFFSET;
                    } else if i {
                        face.faceindex = face.faceindex + ST_TURNOFFSET;
                    } else {
                        face.faceindex = face.faceindex + ST_TURNOFFSET + 1;
                    }
                }
            }
        }
    }
    assert(*face == face_attacked(s2, *pl, oldhealth, attacker, angle));
    let ghost s3 = *face;
    if face.priority < 7 {
        if pl.damagecount != 0 {
            if pl.health - oldhealth > ST_MUCHPAIN {
                face.priority = 7;
                face.facecount = ST_TURNCOUNT;
                face.faceindex = ST_calcPainOffset(pl.health) + ST_OUCHOFFSET;
            } else {
                face.priority = 6;
                face.facecount = ST_TURNCOUNT;
                face.faceindex = ST_calcPainOffset(pl.health) + ST_RAMPAGEOFFSET;
            }
        }
    }
    assert(*face == face_hurt(s3, *pl, oldhealth));
    let ghost s4 = *face;
    if face.priority < 6 {
        if pl.attackdown {
            if face.lastattackdown == -1 {
                face.lastattackdown = ST_RAMPAGEDELAY;
            } else {
                face.lastattackdown = face.lastattackdown - 1;
                if face.lastattackdown == 0 {
                    face.priority = 5;
                    face.faceindex = ST_calcPainOffset(pl.health) + ST_RAMPAGEOFFSET;
                    face.facecount = 1;
                    face.lastattackdown = 1;
                }
            }
        } else {
            face.lastattackdown = -1;
        }
    }
    assert(*face == face_rampage(s4, *pl));
    let ghost s5 = *face;
    if face.priority < 5 {
        if pl.cheats & CF_GODMODE != 0 || pl.powers[0] != 0 {
            face.priority = 4;
            face.faceindex = ST_GODFACE;
            face.facecount = 1;
        }
    }
    assert(*face == face_god(s5, *pl));
    let ghost s6 = *face;
    if face.facecount == 0 {
        face.faceindex = ST_calcPainOffset(pl.health) + (random as usize) % 3;
        face.facecount = ST_STRAIGHTFACECOUNT;
        face.priority = 0;
    }
    face.facecount = face.facecount - 1;
}

/// The state the status bar keeps from tic to tic.
#[derive(Debug, Clone, Copy)]
pub struct StatusBar {
    /// Tics since the bar started.
    pub clock: u32,
    /// A random number drawn each tic, for the face to look about.
    pub randomnumber: i32,
    /// Tics until a message that popped up the chat line goes away.
    pub msgcounter: i32,
    pub statusbaron: bool,
    pub chat: bool,
    /// Whether the chat line was up before a message popped it up.
    pub oldchat: bool,
    pub notdeathmatch: bool,
    /// The weapon ownership boxes are shown.
    pub armson: bool,
    /// The frag count is shown.
    pub fragson: bool,
    pub fragscount: i32,
    /// The key shown in each of the three key boxes: a card number (the
    /// skull key over the card of its colour), or -1 for none.
    pub keyboxes: [i32; 3],
    /// The weapon whose ammunition the ready-ammo number shows ("n/a" for a
    /// weapon without ammunition).
    pub ready_weapon: weapontype_t,
    /// The player's health a tic ago.
    pub oldhealth: i32,
    /// The palette in use; -1 before the first is set.
    pub palette: i32,
    pub face: FaceState,
}

/// Starts the bar for a player: clock, chat and face reset, no palette and
/// no keys yet, and the face takes the weapons the player owns as seen.
pub fn ST_initData(st: &mut StatusBar, pl: &Player)
    ensures
        *final(st) == (StatusBar {
            clock: 0,
            statusbaron: true,
            oldchat: false,
            chat: false,
            palette: -1i32,
            oldhealth: -1i32,
            keyboxes: [-1i32, -1i32, -1i32],
            face: FaceState { faceindex: 0, oldweaponsowned: pl.weaponowned, ..old(st).face },
            ..*old(st)
        }),
{
    st.clock = 0;
    st.statusbaron = true;
    st.oldchat = false;
    st.chat = false;
    st.face.faceindex = 0;
    st.palette = -1;
    st.oldhealth = -1;
    st.face.oldweaponsowned = pl.weaponowned;
    st.keyboxes = [-1, -1, -1];
}

/// The key box `i` shows: the skull key of its colour if the player has it,
/// else the card if the player has it, else none.
pub open spec fn keybox(cards: [bool; 6], i: int) -> i32 {
    if cards[i + 3] {
        (i + 3) as i32
    } else if cards[i] {
        i as i32
    } else {
        -1i32
    }
}

/// The frags of the first `k` players as the bar counts them: the frags
/// of the others add, those of the player himself (suicides) subtract.
pub open spec fn frag_sum(frags: [i32; MAXPLAYERS], consoleplayer: int, k: int) -> int
    decreases k,
{
    if k <= 0 {
        0
    } else {
        frag_sum(frags, consoleplayer, k - 1) + if k - 1 != consoleplayer {
            frags[k - 1] as int
        } else {
            -frags[k - 1]
        }
    }
}

/// Every partial frag count fits in 32 bits.
pub open spec fn frags_fit(frags: [i32; MAXPLAYERS], consoleplayer: int) -> bool {
    forall|k: int| 0 <= k <= MAXPLAYERS ==> i32::MIN <= #[trigger] frag_sum(frags, consoleplayer, k) <= i32::MAX
}

/// Updates the widgets for a tic: the ready-ammo number follows the ready
/// weapon, the key boxes the player's keys, the face (see
/// `ST_updateFaceWidget`); the arms and frags show in and out of
/// deathmatch; the frags are counted (see `frag_sum`); and a message that
/// popped up the chat line goes away when its count runs out.
pub fn ST_updateWidgets(
    st: &mut StatusBar,
    pl: &Player,
    frags: [i32; MAXPLAYERS],
    consoleplayer: usize,
    deathmatch: i32,
    attacker: Attacker,
    angle: u32,
)
    requires
        pain_fits(pl.health),
        old(st).face.lastattackdown > i32::MIN,
        old(st).randomnumber >= 0,
        pl.damagecount != 0 ==> i32::MIN <= pl.health - old(st).oldhealth <= i32::MAX,
        frags_fit(frags, consoleplayer as int),
        old(st).msgcounter > i32::MIN,
    ensures
        *final(st) == (StatusBar {
            ready_weapon: pl.readyweapon,
            keyboxes: [keybox(pl.cards, 0), keybox(pl.cards, 1), keybox(pl.cards, 2)],
            face: face_update(
                old(st).face,
                *pl,
                old(st).oldhealth,
                attacker,
                angle,
                old(st).randomnumber,
            ),
            notdeathmatch: deathmatch == 0,
            armson: old(st).statusbaron && deathmatch == 0,
            fragson: old(st).statusbaron && deathmatch != 0,
            fragscount: frag_sum(frags, consoleplayer as int, MAXPLAYERS as int) as i32,
            msgcounter: (old(st).msgcounter - 1) as i32,
            chat: if old(st).msgcounter - 1 == 0 {
                old(st).oldchat
            } else {
                old(st).chat
            },
            ..*old(st)
        }),
{
    st.ready_weapon = pl.readyweapon;
    let mut i: usize = 0;
    while i < 3
        invariant
            i <= 3,
            forall|j: int| 0 <= j < i ==> #[trigger] st.keyboxes[j] == keybox(pl.cards, j),
            forall|j: int| i <= j < 3 ==> #[trigger] st.keyboxes[j] == old(st).keyboxes[j],
            st.ready_weapon == pl.readyweapon,
            st.face == old(st).face,
            st.oldhealth == old(st).oldhealth,
            st.randomnumber == old(st).randomnumber,
            st.statusbaron == old(st).statusbaron,
            st.msgcounter == old(st).msgcounter,
            st.chat == old(st).chat,
            st.oldchat == old(st).oldchat,
            st.clock == old(st).clock,
            st.palette == old(st).palette,
            st.notdeathmatch == old(st).notdeathmatch,
            st.armson == old(st).armson,
            st.fragson == old(st).fragson,
            st.fragscount == old(st).fragscount,
        decreases 3 - i,
    {
        st.keyboxes[i] = if pl.cards[i] {
            i as i32
        } else {
            -1
        };
        if pl.cards[i + 3] {
            st.keyboxes[i] = (i + 3) as i32;
        }
        i += 1;
    }
    assert(st.keyboxes =~= [keybox(pl.cards, 0), keybox(pl.cards, 1), keybox(pl.cards, 2)]);
    let oldhealth = st.oldhealth;
    let random = st.randomnumber;
    ST_updateFaceWidget(&mut st.face, pl, oldhealth, attacker, angle, random);
    st.notdeathmatch = deathmatch == 0;
    st.armson = st.statusbaron && deathmatch == 0;
    st.fragson = st.statusbaron && deathmatch != 0;
    let mut count: i32 = 0;
    let mut p: usize = 0;
    while p < MAXPLAYERS
        invariant
            p <= MAXPLAYERS,
            frags_fit(frags, consoleplayer as int),
            count == frag_sum(frags, consoleplayer as int, p as int),
        decreases MAXPLAYERS - p,
    {
        assert(i32::MIN <= frag_sum(frags, consoleplayer as int, p + 1) <= i32::MAX);
        if p != consoleplayer {
            count = count + frags[p];
        } else {
            count = count - frags[p];
        }
        p += 1;
    }
    st.fragscount = count;
    st.msgcounter = st.msgcounter - 1;
    if st.msgcounter == 0 {
        st.chat = st.oldchat;
    }
}

/// One tic of the status bar: the clock runs, a new random number (`random`,
/// 0 to 255) is drawn, the widgets are updated (see `ST_updateWidgets`) and
/// the player's health is remembered.
pub fn ST_Ticker(
    st: &mut StatusBar,
    pl: &Player,
    random: u8,
    frags: [i32; MAXPLAYERS],
    consoleplayer: usize,
    deathmatch: i32,
    attacker: Attacker,
    angle: u32,
)
    requires
        old(st).clock < u32::MAX,
        pain_fits(pl.health),
        old(st).face.lastattackdown > i32::MIN,
        pl.damagecount != 0 ==> i32::MIN <= pl.health - old(st).oldhealth <= i32::MAX,
        frags_fit(frags, consoleplayer as int),
        old(st).msgcounter > i32::MIN,
    ensures
        final(st).clock == old(st).clock + 1,
        final(st).randomnumber == random as i32,
        final(st).face == face_update(
            old(st).face,
            *pl,
            old(st).oldhealth,
            attacker,
            angle,
            random as i32,
        ),
        final(st).oldhealth == pl.health,
        final(st).ready_weapon == pl.readyweapon,
        final(st).keyboxes == [keybox(pl.cards, 0), keybox(pl.cards, 1), keybox(pl.cards, 2)],
        final(st).fragscount == frag_sum(frags, consoleplayer as int, MAXPLAYERS as int),
        final(st).notdeathmatch == (deathmatch == 0),
        final(st).armson == (old(st).statusbaron && deathmatch == 0),
        final(st).fragson == (old(st).statusbaron && deathmatch != 0),
        final(st).msgcounter == old(st).msgcounter - 1,
        final(st).chat == if old(st).msgcounter - 1 == 0 {
            old(st).oldchat
        } else {
            old(st).chat
        },
        final(st).statusbaron == old(st).statusbaron,
        final(st).oldchat == old(st).oldchat,
        final(st).palette == old(st).palette,
{
    st.clock = st.clock + 1;
    st.randomnumber = random as i32;
    ST_updateWidgets(st, pl, frags, consoleplayer, deathmatch, attacker, angle);
    st.oldhealth = pl.health;
}

/// The palette that tints the view: red for pain (the damage count, or the
/// fading berserk strength if redder), else gold after a pickup, else
/// green while the radiation suit holds (blinking as it runs out), else
/// the normal one.
pub open spec fn palette_for(pl: Player) -> int {
    let strength = pl.powers[1] as int;
    let bzc = if 12 - strength / 64 > 0 {
        12 - strength / 64
    } else {
        0
    };
    let cnt = if strength != 0 && bzc > pl.damagecount {
        bzc
    } else {
        pl.damagecount as int
    };
    if cnt != 0 {
        (if (cnt + 7) / 8 >= NUMREDPALS {
            NUMREDPALS - 1
        } else {
            (cnt + 7) / 8
        }) + STARTREDPALS
    } else if pl.bonuscount != 0 {
        (if (pl.bonuscount + 7) / 8 >= NUMBONUSPALS {
            NUMBONUSPALS - 1
        } else {
            (pl.bonuscount + 7) / 8
        }) + STARTBONUSPALS
    } else if pl.powers[3] > 4 * 32 || pl.powers[3] & 8 != 0 {
        RADIATIONPAL as int
    } else {
        0
    }
}

/// Picks the palette for the player (see `palette_for`) and gives it where
/// it differs from the one in use, which it then becomes; `None` where the
/// palette stays.
pub fn ST_doPaletteStuff(st: &mut StatusBar, pl: &Player) -> (r: Option<usize>)
    requires
        pl.damagecount >= 0,
        pl.bonuscount >= 0,
        pl.powers[1] >= 0,
    ensures
        r == if palette_for(*pl) != old(st).palette {
            Some(palette_for(*pl) as usize)
        } else {
            None
        },
        *final(st) == (StatusBar { palette: palette_for(*pl) as i32, ..*old(st) }),
{
    let mut cnt: u32 = pl.damagecount as u32;
    let strength = pl.powers[1];
    if strength != 0 {
        assert(strength >> 6u32 == strength / 64) by (bit_vector);
        let s = strength >> 6u32;
        let bzc: u32 = if 12 - s > 0 {
            (12 - s) as u32
        } else {
            0
        };
        if bzc > cnt {
            cnt = bzc;
        }
    }
    let palette: usize;
    if cnt != 0 {
        let mut p: usize = ((cnt as usize) + 7) / 8;
        if p >= NUMREDPALS {
            p = NUMREDPALS - 1;
        }
        palette = p + STARTREDPALS;
    } else if pl.bonuscount != 0 {
        let mut p: usize = ((pl.bonuscount as usize) + 7) / 8;
        if p >= NUMBONUSPALS {
            p = NUMBONUSPALS - 1;
        }
        palette = p + STARTBONUSPALS;
    } else if pl.powers[3] > 4 * 32 || pl.powers[3] & 8 != 0 {
        palette = RADIATIONPAL;
    } else {
        palette = 0;
    }
    if palette as i32 != st.palette {
        st.palette = palette as i32;
        Some(palette)
    } else {
        None
    }
}

/// Top row of the status bar on the screen.
pub const ST_Y: usize = 168;

/// A number shown on the status bar, as drawn: the area cleared first (its
/// left column and width), then each digit (column and value), then
/// possibly a minus sign (column).
#[derive(Debug, PartialEq, Eq)]
pub struct NumDraw {
    pub clear_x: usize,
    pub clear_w: usize,
    pub digits: Vec<(usize, u8)>,
    pub minus: Option<usize>,
}

/// The value shown for `num` in `numdigits` digits: a negative number is
/// shown by its size, at most 9 in two digits and 99 in three.
pub open spec fn shown_value(num: i32, numdigits: usize) -> int {
    if num < 0 {
        if numdigits == 2 && num < -9 {
            9
        } else if numdigits == 3 && num < -99 {
            99
        } else {
            -num
        }
    } else {
        num as int
    }
}

/// The digits drawn for `v` right to left from column `x`, at most
/// `numdigits` of them, each `w` wide; a single 0 for zero.
pub open spec fn digit_draws(v: int, numdigits: int, x: int, w: int) -> Seq<(usize, u8)>
    decreases numdigits,
{
    if v > 0 && numdigits > 0 {
        seq![((x - w) as usize, (v % 10) as u8)] + digit_draws(v / 10, numdigits - 1, x - w, w)
    } else {
        Seq::empty()
    }
}

/// How many digits `digit_draws` draws.
pub open spec fn digit_count(v: int, numdigits: int) -> int
    decreases numdigits,
{
    if v > 0 && numdigits > 0 {
        1 + digit_count(v / 10, numdigits - 1)
    } else {
        0
    }
}

proof fn lemma_digit_count(v: int, numdigits: int, x: int, w: int)
    ensures
        digit_draws(v, numdigits, x, w).len() == digit_count(v, numdigits),
        0 <= digit_count(v, numdigits),
        numdigits >= 0 ==> digit_count(v, numdigits) <= numdigits,
    decreases numdigits,
{
    if v > 0 && numdigits > 0 {
        lemma_digit_count(v / 10, numdigits - 1, x - w, w);
    }
}

/// Draws the number `num` right-aligned at column `x` in `numdigits`
/// digits `w` wide and `h` high (see `shown_value`, `digit_draws`): the
/// area is cleared; 1994 stands for no number and draws nothing more; zero
/// shows one 0; a negative number gets a minus sign 8 columns left of its
/// digits.
pub fn STlib_drawNum(x: usize, y: usize, numdigits: usize, num: i32, w: usize) -> (r: NumDraw)
    requires
        numdigits * w <= x,
        y >= ST_Y,
        num == 0 ==> w <= x,
        num == i32::MIN ==> numdigits == 2 || numdigits == 3,
        num < 0 && shown_value(num, numdigits) != 1994 ==> x - digit_count(
            shown_value(num, numdigits),
            numdigits as int,
        ) * w >= 8,
    ensures
        ({
            let v = shown_value(num, numdigits);
            &&& r.clear_x == x - numdigits * w
            &&& r.clear_w == w * numdigits
            &&& r.digits@ == if v == 1994 {
                Seq::empty()
            } else if v == 0 {
                seq![((x - w) as usize, 0u8)]
            } else {
                digit_draws(v, numdigits as int, x as int, w as int)
            }
            &&& r.minus == if num < 0 && v != 1994 {
                Some((x - digit_count(v, numdigits as int) * w - 8) as usize)
            } else {
                None
            }
        }),
{
    let mut numdigits_left = numdigits;
    let mut v = num;
    let neg = num < 0;
    if neg {
        if numdigits == 2 && v < -9 {
            v = -9;
        } else if numdigits == 3 && v < -99 {
            v = -99;
        }
        v = -v;
    }
    let clear_x = x - numdigits * w;
    let clear_w = w * numdigits;
    if v == 1994 {
        return NumDraw { clear_x, clear_w, digits: Vec::new(), minus: None };
    }
    let mut digits: Vec<(usize, u8)> = Vec::new();
    let mut cx = x;
    if v == 0 {
        digits.push((cx - w, 0));
    }
    proof {
        lemma_digit_count(v as int, numdigits as int, x as int, w as int);
    }
    let ghost v0 = v as int;
    while v > 0 && numdigits_left > 0
        invariant
            0 <= v,
            numdigits_left <= numdigits,
            v0 == shown_value(num, numdigits),
            v0 != 1994,
            cx == x - (numdigits - numdigits_left) * w,
            numdigits * w <= x,
            v0 == 0 ==> digits@ == seq![((x - w) as usize, 0u8)] && v == 0,
            v0 != 0 ==> digits@ + digit_draws(v as int, numdigits_left as int, cx as int, w as int)
                == digit_draws(v0, numdigits as int, x as int, w as int),
            digit_count(v0, numdigits as int) == (numdigits - numdigits_left) + digit_count(
                v as int,
                numdigits_left as int,
            ),
        decreases numdigits_left,
    {
        assert(cx >= w) by (nonlinear_arith)
            requires
                cx == x - (numdigits - numdigits_left) * w,
                numdigits * w <= x,
                numdigits_left > 0,
                numdigits_left <= numdigits,
        ;
        let ghost before = digits@;
        let ghost old_v = v as int;
        let ghost old_nl = numdigits_left as int;
        let ghost old_cx = cx as int;
        numdigits_left = numdigits_left - 1;
        cx = cx - w;
        assert(cx == x - (numdigits - numdigits_left) * w) by (nonlinear_arith)
            requires
                old_cx == x - (numdigits - old_nl) * w,
                cx == old_cx - w,
                numdigits_left == old_nl - 1,
        ;
        digits.push((cx, (v % 10) as u8));
        v = v / 10;
        assert(digit_draws(old_v, old_nl, old_cx, w as int) == seq![((old_cx - w) as usize, (old_v
            % 10) as u8)] + digit_draws(v as int, numdigits_left as int, cx as int, w as int));
        assert(digits@ + digit_draws(v as int, numdigits_left as int, cx as int, w as int) =~= before
            + digit_draws(old_v, old_nl, old_cx, w as int));
    }
    let minus = if neg {
        Some(cx - 8)
    } else {
        None
    };
    NumDraw { clear_x, clear_w, digits, minus }
}

} // verus!
