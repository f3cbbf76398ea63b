//! The game menus: navigation, the control-panel keys, save-game name
//! entry, confirmation messages and the settings they change.
//!
//! The responder is a state machine: it takes an input event and returns
//! the actions (sounds, loading and saving games, view size changes, ...)
//! that the caller performs.

use vstd::prelude::*;

use crate::player::{skill_t, GameMode_t};
use crate::sounds::{sfxenum_t, Message};

verus! {

/// The menus.
#[derive(Debug, Clone, Copy, PartialEq, Eq, Structural)]
pub enum MenuId {
    Main,
    Episode,
    NewGame,
    Options,
    ReadThis1,
    ReadThis2,
    Sound,
    Load,
    Save,
}

impl MenuId {
    /// Index of the menu.
    pub open spec fn idx(self) -> int {
        match self {
            MenuId::Main => 0,
            MenuId::Episode => 1,
            MenuId::NewGame => 2,
            MenuId::Options => 3,
            MenuId::ReadThis1 => 4,
            MenuId::ReadThis2 => 5,
            MenuId::Sound => 6,
            MenuId::Load => 7,
            MenuId::Save => 8,
        }
    }

    /// Index of the menu.
    pub fn to_usize(self) -> (r: usize)
        ensures
            r as int == self.idx(),
    {
        match self {
            MenuId::Main => 0,
            MenuId::Episode => 1,
            MenuId::NewGame => 2,
            MenuId::Options => 3,
            MenuId::ReadThis1 => 4,
            MenuId::ReadThis2 => 5,
            MenuId::Sound => 6,
            MenuId::Load => 7,
            MenuId::Save => 8,
        }
    }
}

/// Items of the main menu.
#[derive(Debug, Clone, Copy, PartialEq, Eq, Structural)]
pub enum main_e {
    newgame,
    options,
    loadgame,
    savegame,
    readthis,
    quitdoom,
    main_end,
}

impl main_e {
    /// The item's number.
    pub fn to_u8(self) -> (r: u8)
        ensures
            r == self.to_i16_spec(),
    {
        match self {
            main_e::newgame => 0,
            main_e::options => 1,
            main_e::loadgame => 2,
            main_e::savegame => 3,
            main_e::readthis => 4,
            main_e::quitdoom => 5,
            main_e::main_end => 6,
        }
    }

    /// The item's number.
    pub open spec fn to_i16_spec(self) -> int {
        match self {
            main_e::newgame => 0,
            main_e::options => 1,
            main_e::loadgame => 2,
            main_e::savegame => 3,
            main_e::readthis => 4,
            main_e::quitdoom => 5,
            main_e::main_end => 6,
        }
    }

    /// The item's number.
    pub fn to_i16(self) -> (r: i16)
        ensures
            r == self.to_i16_spec(),
    {
        match self {
            main_e::newgame => 0,
            main_e::options => 1,
            main_e::loadgame => 2,
            main_e::savegame => 3,
            main_e::readthis => 4,
            main_e::quitdoom => 5,
            main_e::main_end => 6,
        }
    }
}

/// Items of the episode menu.
#[derive(Debug, Clone, Copy, PartialEq, Eq, Structural)]
pub enum episodes_e {
    ep1,
    ep2,
    ep3,
    ep4,
    ep_end,
}

impl episodes_e {
    /// The item's number.
    pub fn to_i16(self) -> (r: i16)
        ensures
            r == (match self {
                episodes_e::ep1 => 0i16,
                episodes_e::ep2 => 1i16,
                episodes_e::ep3 => 2i16,
                episodes_e::ep4 => 3i16,
                episodes_e::ep_end => 4i16,
            }),
    {
        match self {
            episodes_e::ep1 => 0,
            episodes_e::ep2 => 1,
            episodes_e::ep3 => 2,
            episodes_e::ep4 => 3,
            episodes_e::ep_end => 4,
        }
    }
}

/// Items of the new game (skill) menu.
#[derive(Debug, Clone, Copy, PartialEq, Eq, Structural)]
pub enum newgame_e {
    killthings,
    toorough,
    hurtme,
    violence,
    nightmare,
    newg_end,
}

impl newgame_e {
    /// The item's number.
    pub fn to_i16(self) -> (r: i16)
        ensures
            r == (match self {
                newgame_e::killthings => 0i16,
                newgame_e::toorough => 1i16,
                newgame_e::hurtme => 2i16,
                newgame_e::violence => 3i16,
                newgame_e::nightmare => 4i16,
                newgame_e::newg_end => 5i16,
            }),
    {
        match self {
            newgame_e::killthings => 0,
            newgame_e::toorough => 1,
            newgame_e::hurtme => 2,
            newgame_e::violence => 3,
            newgame_e::nightmare => 4,
            newgame_e::newg_end => 5,
        }
    }
}

/// Items of the options menu.
#[derive(Debug, Clone, Copy, PartialEq, Eq, Structural)]
pub enum options_e {
    endgame,
    messages,
    detail,
    scrnsize,
    option_empty1,
    mousesens,
    option_empty2,
    soundvol,
    opt_end,
}

impl options_e {
    /// The item's number.
    pub open spec fn num(self) -> int {
        match self {
            options_e::endgame => 0,
            options_e::messages => 1,
            options_e::detail => 2,
            options_e::scrnsize => 3,
            options_e::option_empty1 => 4,
            options_e::mousesens => 5,
            options_e::option_empty2 => 6,
            options_e::soundvol => 7,
            options_e::opt_end => 8,
        }
    }

    /// The item's number.
    pub fn to_u8(self) -> (r: u8)
        ensures
            r as int == self.num(),
    {
        match self {
            options_e::endgame => 0,
            options_e::messages => 1,
            options_e::detail => 2,
            options_e::scrnsize => 3,
            options_e::option_empty1 => 4,
            options_e::mousesens => 5,
            options_e::option_empty2 => 6,
            options_e::soundvol => 7,
            options_e::opt_end => 8,
        }
    }

    /// The item's number.
    pub fn to_i16(self) -> (r: i16)
        ensures
            r as int == self.num(),
    {
        match self {
            options_e::endgame => 0,
            options_e::messages => 1,
            options_e::detail => 2,
            options_e::scrnsize => 3,
            options_e::option_empty1 => 4,
            options_e::mousesens => 5,
            options_e::option_empty2 => 6,
            options_e::soundvol => 7,
            options_e::opt_end => 8,
        }
    }
}

/// Items of the first help screen.
#[derive(Debug, Clone, Copy, PartialEq, Eq, Structural)]
pub enum read_e {
    rdthsempty1,
    read1_end,
}

impl read_e {
    /// The item's number.
    pub fn to_i16(self) -> (r: i16)
        ensures
            r == (match self {
                read_e::rdthsempty1 => 0i16,
                read_e::read1_end => 1i16,
            }),
    {
        match self {
            read_e::rdthsempty1 => 0,
            read_e::read1_end => 1,
        }
    }
}

/// Items of the second help screen.
#[derive(Debug, Clone, Copy, PartialEq, Eq, Structural)]
pub enum read_e2 {
    rdthsempty2,
    read2_end,
}

impl read_e2 {
    /// The item's number.
    pub fn to_i16(self) -> (r: i16)
        ensures
            r == (match self {
                read_e2::rdthsempty2 => 0i16,
                read_e2::read2_end => 1i16,
            }),
    {
        match self {
            read_e2::rdthsempty2 => 0,
            read_e2::read2_end => 1,
        }
    }
}

/// Items of the sound volume menu.
#[derive(Debug, Clone, Copy, PartialEq, Eq, Structural)]
pub enum sound_e {
    sfx_vol,
    sfx_empty1,
    music_vol,
    sfx_empty2,
    sound_end,
}

impl sound_e {
    /// The item's number.
    pub open spec fn num(self) -> int {
        match self {
            sound_e::sfx_vol => 0,
            sound_e::sfx_empty1 => 1,
            sound_e::music_vol => 2,
            sound_e::sfx_empty2 => 3,
            sound_e::sound_end => 4,
        }
    }

    /// The item's number.
    pub fn to_i16(self) -> (r: i16)
        ensures
            r as int == self.num(),
    {
        match self {
            sound_e::sfx_vol => 0,
            sound_e::sfx_empty1 => 1,
            sound_e::music_vol => 2,
            sound_e::sfx_empty2 => 3,
            sound_e::sound_end => 4,
        }
    }

    /// The item's number.
    pub fn to_usize(self) -> (r: usize)
        ensures
            r as int == self.num(),
    {
        match self {
            sound_e::sfx_vol => 0,
            sound_e::sfx_empty1 => 1,
            sound_e::music_vol => 2,
            sound_e::sfx_empty2 => 3,
            sound_e::sound_end => 4,
        }
    }
}

/// Items of the load and save menus.
#[derive(Debug, Clone, Copy, PartialEq, Eq, Structural)]
pub enum load_e {
    load1,
    load2,
    load3,
    load4,
    load5,
    load6,
    load_end,
}

impl load_e {
    /// The item's number.
    pub open spec fn num(self) -> int {
        match self {
            load_e::load1 => 0,
            load_e::load2 => 1,
            load_e::load3 => 2,
            load_e::load4 => 3,
            load_e::load5 => 4,
            load_e::load6 => 5,
            load_e::load_end => 6,
        }
    }

    /// The item's number.
    pub fn to_u8(self) -> (r: u8)
        ensures
            r as int == self.num(),
    {
        match self {
            load_e::load1 => 0,
            load_e::load2 => 1,
            load_e::load3 => 2,
            load_e::load4 => 3,
            load_e::load5 => 4,
            load_e::load6 => 5,
            load_e::load_end => 6,
        }
    }

    /// The item's number.
    pub fn to_i16(self) -> (r: i16)
        ensures
            r as int == self.num(),
    {
        match self {
            load_e::load1 => 0,
            load_e::load2 => 1,
            load_e::load3 => 2,
            load_e::load4 => 3,
            load_e::load5 => 4,
            load_e::load6 => 5,
            load_e::load_end => 6,
        }
    }
}

/// What choosing a menu item does.
#[derive(Debug, Clone, Copy, PartialEq, Eq, Structural)]
pub enum MenuRoutine {
    NewGame,
    Options,
    LoadGame,
    SaveGame,
    ReadThis,
    QuitDoom,
    Episode,
    ChooseSkill,
    EndGame,
    ChangeMessages,
    ChangeDetail,
    SizeDisplay,
    ChangeSensitivity,
    Sound,
    ReadThis2,
    FinishReadThis,
    SfxVol,
    MusicVol,
    LoadSelect,
    SaveSelect,
}

/// What answering a confirmation message does.
#[derive(Debug, Clone, Copy, PartialEq, Eq, Structural)]
pub enum MessageRoutine {
    QuickSaveResponse,
    QuickLoadResponse,
    VerifyNightmare,
    EndGameResponse,
    QuitResponse,
}

/// The texts of the menu's messages.
#[derive(Debug, Clone, Copy, PartialEq, Eq, Structural)]
pub enum MenuText {
    LOADNET,
    QLOADNET,
    QSAVESPOT,
    SAVEDEAD,
    /// Quick save prompt, naming the quick save slot.
    QSPROMPT(usize),
    /// Quick load prompt, naming the quick save slot.
    QLPROMPT(usize),
    NEWGAME,
    NIGHTMARE,
    SWSTRING,
    NETEND,
    ENDGAME,
    /// The quit message with the given number, followed by the prompt.
    Quit(usize),
}

/// A menu item: 0 = no cursor here, 1 = ok, 2 = arrows ok, -1 = empty line.
#[derive(Debug, Clone, Copy, PartialEq, Eq, Structural)]
pub struct MenuItem {
    pub status: i16,
    pub routine: Option<MenuRoutine>,
    /// Hotkey in menu.
    pub alpha_key: u8,
}

/// Actions the menu asks the rest of the game to perform.
#[derive(Debug, Clone, Copy, PartialEq, Eq, Structural)]
pub enum MenuAction {
    StartSound(sfxenum_t),
    /// Re-read the descriptions of the saved games and pass them back.
    ReadSaveStrings,
    /// Load the game in the given slot.
    LoadGame(i32),
    /// Save the game in the given slot under its description.
    SaveGame(usize),
    /// End the game and show the title screen.
    StartTitle,
    /// Wait for the given number of vertical blanks.
    WaitVBL(i32),
    Quit,
    /// Start a new game at the given skill, episode and map.
    NewGame(skill_t, usize, i32),
    SetViewSize(usize, i32),
    SetSfxVolume(i32),
    SetMusicVolume(i32),
    /// Show a message to the console player and keep it on screen.
    PlayerMessage(Message),
    ScreenShot,
    /// Reload the palette for the new gamma level.
    SetPalette,
    /// Report that low detail mode is not available.
    DetailNotAvailable,
    /// Report that the fourth episode requires Ultimate DOOM.
    FourthEpisodeNeedsUltimate,
}

/// Length of a saved game's description, including its terminating zero.
pub const SAVESTRINGSIZE: usize = 24;

/// Number of saved game slots.
pub const SAVESLOTS: usize = 6;

/// The menu system's state.
#[derive(Debug, Clone, Copy)]
pub struct MenuState {
    pub menuactive: bool,
    pub current: MenuId,
    /// The menu item the skull is on.
    pub item_on: i16,
    /// The item the user was last on, per menu.
    pub last_on: [i16; 9],
    /// Status of the load menu's items (0 for an empty slot).
    pub load_status: [i16; 6],
    pub message_to_print: bool,
    pub message_string: Option<MenuText>,
    pub message_last_menu_active: bool,
    pub message_needs_input: bool,
    pub message_routine: Option<MessageRoutine>,
    /// A saved game description is being typed in.
    pub save_string_enter: bool,
    pub save_slot: usize,
    pub save_char_index: usize,
    pub save_old_string: [u8; 24],
    /// The descriptions of the saved games, 24 bytes per slot.
    pub savegamestrings: [u8; 144],
    /// -1: no quick save slot picked, -2: pick one now.
    pub quick_save_slot: i32,
    pub epi: usize,
    pub skull_anim_counter: i16,
    pub which_skull: i16,
    pub detail_level: i32,
    pub screenblocks: usize,
    pub screen_size: usize,
    pub show_messages: i32,
    pub mouse_sensitivity: i32,
    pub sfx_volume: i32,
    pub music_volume: i32,
    pub usegamma: i32,
    pub inhelpscreens: bool,
    pub joywait: u64,
    pub mousewait: u64,
    pub mousey: i32,
    pub lasty: i32,
    pub mousex: i32,
    pub lastx: i32,
}

/// The menu state as a mathematical value.
pub struct MenuModel {
    pub menuactive: bool,
    pub current: MenuId,
    pub item_on: i16,
    pub last_on: Seq<i16>,
    pub load_status: Seq<i16>,
    pub message_to_print: bool,
    pub message_string: Option<MenuText>,
    pub message_last_menu_active: bool,
    pub message_needs_input: bool,
    pub message_routine: Option<MessageRoutine>,
    pub save_string_enter: bool,
    pub save_slot: usize,
    pub save_char_index: usize,
    pub save_old_string: Seq<u8>,
    pub savegamestrings: Seq<u8>,
    pub quick_save_slot: i32,
    pub epi: usize,
    pub skull_anim_counter: i16,
    pub which_skull: i16,
    pub detail_level: i32,
    pub screenblocks: usize,
    pub screen_size: usize,
    pub show_messages: i32,
    pub mouse_sensitivity: i32,
    pub sfx_volume: i32,
    pub music_volume: i32,
    pub usegamma: i32,
    pub inhelpscreens: bool,
    pub joywait: u64,
    pub mousewait: u64,
    pub mousey: i32,
    pub lasty: i32,
    pub mousex: i32,
    pub lastx: i32,
}

impl View for MenuState {
    type V = MenuModel;

    open spec fn view(&self) -> MenuModel {
        MenuModel {
            menuactive: self.menuactive,
            current: self.current,
            item_on: self.item_on,
            last_on: self.last_on@,
            load_status: self.load_status@,
            message_to_print: self.message_to_print,
            message_string: self.message_string,
            message_last_menu_active: self.message_last_menu_active,
            message_needs_input: self.message_needs_input,
            message_routine: self.message_routine,
            save_string_enter: self.save_string_enter,
            save_slot: self.save_slot,
            save_char_index: self.save_char_index,
            save_old_string: self.save_old_string@,
            savegamestrings: self.savegamestrings@,
            quick_save_slot: self.quick_save_slot,
            epi: self.epi,
            skull_anim_counter: self.skull_anim_counter,
            which_skull: self.which_skull,
            detail_level: self.detail_level,
            screenblocks: self.screenblocks,
            screen_size: self.screen_size,
            show_messages: self.show_messages,
            mouse_sensitivity: self.mouse_sensitivity,
            sfx_volume: self.sfx_volume,
            music_volume: self.music_volume,
            usegamma: self.usegamma,
            inhelpscreens: self.inhelpscreens,
            joywait: self.joywait,
            mousewait: self.mousewait,
            mousey: self.mousey,
            lasty: self.lasty,
            mousex: self.mousex,
            lastx: self.lastx,
        }
    }
}

/// The parts of the game that the menu consults.
#[derive(Debug, Clone, Copy, PartialEq, Eq, Structural)]
pub struct MenuEnv {
    pub gamemode: GameMode_t,
    pub netgame: bool,
    pub demoplayback: bool,
    /// A game the user started is running.
    pub usergame: bool,
    /// The game state is a level being played.
    pub in_level: bool,
    pub devparm: bool,
    pub automapactive: bool,
    pub chat_on: bool,
    pub gametic: u32,
    /// The language is English.
    pub english: bool,
    /// The current time in tics.
    pub time: u64,
}

/// Number of items of each menu, per game.
pub open spec fn numitems(id: MenuId, mode: GameMode_t) -> int {
    match id {
        MenuId::Main => if mode == GameMode_t::commercial { 5 } else { 6 },
        MenuId::Episode => if mode == GameMode_t::shareware || mode == GameMode_t::registered { 3 } else { 4 },
        MenuId::NewGame => 5,
        MenuId::Options => 8,
        MenuId::ReadThis1 => 1,
        MenuId::ReadThis2 => 1,
        MenuId::Sound => 4,
        MenuId::Load => 6,
        MenuId::Save => 6,
    }
}

/// Number of items of each menu, per game.
pub fn menu_numitems(id: MenuId, mode: GameMode_t) -> (r: i16)
    ensures
        r as int == numitems(id, mode),
{
    match id {
        MenuId::Main => if mode == GameMode_t::commercial { 5 } else { 6 },
        MenuId::Episode => if mode == GameMode_t::shareware || mode == GameMode_t::registered { 3 } else { 4 },
        MenuId::NewGame => 5,
        MenuId::Options => 8,
        MenuId::ReadThis1 => 1,
        MenuId::ReadThis2 => 1,
        MenuId::Sound => 4,
        MenuId::Load => 6,
        MenuId::Save => 6,
    }
}

/// The menu one goes back to with backspace.
pub open spec fn prev_menu(id: MenuId, mode: GameMode_t) -> Option<MenuId> {
    match id {
        MenuId::Main => None,
        MenuId::Episode => Some(MenuId::Main),
        MenuId::NewGame => if mode == GameMode_t::commercial { Some(MenuId::Main) } else { Some(MenuId::Episode) },
        MenuId::Options => Some(MenuId::Main),
        MenuId::ReadThis1 => Some(MenuId::Main),
        MenuId::ReadThis2 => Some(MenuId::ReadThis1),
        MenuId::Sound => Some(MenuId::Options),
        MenuId::Load => Some(MenuId::Main),
        MenuId::Save => Some(MenuId::Main),
    }
}

/// The menu one goes back to with backspace.
pub fn menu_prev(id: MenuId, mode: GameMode_t) -> (r: Option<MenuId>)
    ensures
        r == prev_menu(id, mode),
{
    match id {
        MenuId::Main => None,
        MenuId::Episode => Some(MenuId::Main),
        MenuId::NewGame => if mode == GameMode_t::commercial { Some(MenuId::Main) } else { Some(MenuId::Episode) },
        MenuId::Options => Some(MenuId::Main),
        MenuId::ReadThis1 => Some(MenuId::Main),
        MenuId::ReadThis2 => Some(MenuId::ReadThis1),
        MenuId::Sound => Some(MenuId::Options),
        MenuId::Load => Some(MenuId::Main),
        MenuId::Save => Some(MenuId::Main),
    }
}

/// Shorthand for a menu item.
pub open spec fn mi(status: i16, routine: Option<MenuRoutine>, key: u8) -> MenuItem {
    MenuItem { status, routine, alpha_key: key }
}

/// Item `i` of menu `id`.
#[verifier::opaque]
pub open spec fn item_at(id: MenuId, i: int, mode: GameMode_t, load_status: Seq<i16>) -> MenuItem {
    match id {
        MenuId::Main => if i == 0 {
            mi(1, Some(MenuRoutine::NewGame), 110)
        } else if i == 1 {
            mi(1, Some(MenuRoutine::Options), 111)
        } else if i == 2 {
            mi(1, Some(MenuRoutine::LoadGame), 108)
        } else if i == 3 {
            mi(1, Some(MenuRoutine::SaveGame), 115)
        } else if i == 4 && mode != GameMode_t::commercial {
            mi(1, Some(MenuRoutine::ReadThis), 114)
        } else {
            mi(1, Some(MenuRoutine::QuitDoom), 113)
        },
        MenuId::Episode => mi(1, Some(MenuRoutine::Episode), if i == 0 { 107 } else if i == 2 { 105 } else { 116 }),
        MenuId::NewGame => mi(
            1,
            Some(MenuRoutine::ChooseSkill),
            if i == 0 { 105 } else if i == 3 { 117 } else if i == 4 { 110 } else { 104 },
        ),
        MenuId::Options => if i == 0 {
            mi(1, Some(MenuRoutine::EndGame), 101)
        } else if i == 1 {
            mi(1, Some(MenuRoutine::ChangeMessages), 109)
        } else if i == 2 {
            mi(1, Some(MenuRoutine::ChangeDetail), 103)
        } else if i == 3 {
            mi(2, Some(MenuRoutine::SizeDisplay), 115)
        } else if i == 5 {
            mi(2, Some(MenuRoutine::ChangeSensitivity), 109)
        } else if i == 7 {
            mi(1, Some(MenuRoutine::Sound), 115)
        } else {
            mi(-1i16, None, 0)
        },
        MenuId::ReadThis1 => mi(
            1,
            Some(if mode == GameMode_t::commercial { MenuRoutine::FinishReadThis } else { MenuRoutine::ReadThis2 }),
            0,
        ),
        MenuId::ReadThis2 => mi(1, Some(MenuRoutine::FinishReadThis), 0),
        MenuId::Sound => if i == 0 {
            mi(2, Some(MenuRoutine::SfxVol), 115)
        } else if i == 2 {
            mi(2, Some(MenuRoutine::MusicVol), 109)
        } else {
            mi(-1i16, None, 0)
        },
        MenuId::Load => mi(load_status[i], Some(MenuRoutine::LoadSelect), (49 + i) as u8),
        MenuId::Save => mi(1, Some(MenuRoutine::SaveSelect), (49 + i) as u8),
    }
}

/// Item `i` of menu `id`.
pub fn menu_item(state: &MenuState, id: MenuId, i: usize, mode: GameMode_t) -> (r: MenuItem)
    requires
        i < 8,
        (id != MenuId::Options ==> i < 6),
    ensures
        r == item_at(id, i as int, mode, state.load_status@),
{
    reveal(item_at);
    match id {
        MenuId::Main => if i == 0 {
            MenuItem { status: 1, routine: Some(MenuRoutine::NewGame), alpha_key: 110u8 }
        } else if i == 1 {
            MenuItem { status: 1, routine: Some(MenuRoutine::Options), alpha_key: 111u8 }
        } else if i == 2 {
            MenuItem { status: 1, routine: Some(MenuRoutine::LoadGame), alpha_key: 108u8 }
        } else if i == 3 {
            MenuItem { status: 1, routine: Some(MenuRoutine::SaveGame), alpha_key: 115u8 }
        } else if i == 4 && mode != GameMode_t::commercial {
            MenuItem { status: 1, routine: Some(MenuRoutine::ReadThis), alpha_key: 114u8 }
        } else {
            MenuItem { status: 1, routine: Some(MenuRoutine::QuitDoom), alpha_key: 113u8 }
        },
        MenuId::Episode => MenuItem {
            status: 1,
            routine: Some(MenuRoutine::Episode),
            alpha_key: if i == 0 { 107u8 } else if i == 2 { 105u8 } else { 116u8 },
        },
        MenuId::NewGame => MenuItem {
            status: 1,
            routine: Some(MenuRoutine::ChooseSkill),
            alpha_key: if i == 0 { 105u8 } else if i == 3 { 117u8 } else if i == 4 { 110u8 } else { 104u8 },
        },
        MenuId::Options => if i == 0 {
            MenuItem { status: 1, routine: Some(MenuRoutine::EndGame), alpha_key: 101u8 }
        } else if i == 1 {
            MenuItem { status: 1, routine: Some(MenuRoutine::ChangeMessages), alpha_key: 109u8 }
        } else if i == 2 {
            MenuItem { status: 1, routine: Some(MenuRoutine::ChangeDetail), alpha_key: 103u8 }
        } else if i == 3 {
            MenuItem { status: 2, routine: Some(MenuRoutine::SizeDisplay), alpha_key: 115u8 }
        } else if i == 5 {
            MenuItem { status: 2, routine: Some(MenuRoutine::ChangeSensitivity), alpha_key: 109u8 }
        } else if i == 7 {
            MenuItem { status: 1, routine: Some(MenuRoutine::Sound), alpha_key: 115u8 }
        } else {
            MenuItem { status: -1, routine: None, alpha_key: 0 }
        },
        MenuId::ReadThis1 => MenuItem {
            status: 1,
            routine: Some(if mode == GameMode_t::commercial { MenuRoutine::FinishReadThis } else { MenuRoutine::ReadThis2 }),
            alpha_key: 0,
        },
        MenuId::ReadThis2 => MenuItem { status: 1, routine: Some(MenuRoutine::FinishReadThis), alpha_key: 0 },
        MenuId::Sound => if i == 0 {
            MenuItem { status: 2, routine: Some(MenuRoutine::SfxVol), alpha_key: 115u8 }
        } else if i == 2 {
            MenuItem { status: 2, routine: Some(MenuRoutine::MusicVol), alpha_key: 109u8 }
        } else {
            MenuItem { status: -1, routine: None, alpha_key: 0 }
        },
        MenuId::Load => MenuItem {
            status: state.load_status[i],
            routine: Some(MenuRoutine::LoadSelect),
            alpha_key: (49 + i) as u8,
        },
        MenuId::Save => MenuItem { status: 1, routine: Some(MenuRoutine::SaveSelect), alpha_key: (49 + i) as u8 },
    }
}

/// Consistency of the menu state: the cursor and the remembered items lie
/// inside their menus, the settings inside their ranges.
pub open spec fn menu_wf(m: MenuModel, mode: GameMode_t) -> bool {
    &&& m.last_on.len() == 9
    &&& m.load_status.len() == 6
    &&& m.save_old_string.len() == 24
    &&& m.savegamestrings.len() == 144
    &&& 0 <= m.item_on < numitems(m.current, mode)
    &&& forall|k: int| 0 <= k < 9 ==> 0 <= #[trigger] m.last_on[k]
    &&& m.last_on[0] < numitems(MenuId::Main, mode)
    &&& m.last_on[1] < numitems(MenuId::Episode, mode)
    &&& m.last_on[2] < numitems(MenuId::NewGame, mode)
    &&& m.last_on[3] < numitems(MenuId::Options, mode)
    &&& m.last_on[4] < numitems(MenuId::ReadThis1, mode)
    &&& m.last_on[5] < numitems(MenuId::ReadThis2, mode)
    &&& m.last_on[6] < numitems(MenuId::Sound, mode)
    &&& m.last_on[7] < numitems(MenuId::Load, mode)
    &&& m.last_on[8] < numitems(MenuId::Save, mode)
    &&& forall|k: int| 0 <= k < 6 ==> -1 <= #[trigger] m.load_status[k] <= 2
    &&& m.save_slot < SAVESLOTS
    &&& m.save_char_index <= SAVESTRINGSIZE
    &&& (m.message_routine == Some(MessageRoutine::QuickSaveResponse) || m.message_routine == Some(MessageRoutine::QuickLoadResponse)) ==> 0 <= m.quick_save_slot
    &&& m.epi <= 3
    &&& 3 <= m.screenblocks <= 11
    &&& m.screen_size == m.screenblocks - 3
    &&& 0 <= m.detail_level <= 1
    &&& 0 <= m.show_messages <= 1
    &&& 0 <= m.mouse_sensitivity <= 9
    &&& m.sfx_volume <= 15
    &&& m.music_volume <= 15
    &&& 0 <= m.usegamma <= 4
    &&& -2 <= m.quick_save_slot < SAVESLOTS
    &&& 0 <= m.skull_anim_counter <= 10
    &&& 0 <= m.which_skull <= 1
}

/// Number of quit messages, including the language-sensitive one.
pub const NUM_QUITMESSAGES: u32 = 22;

/// The description shown for an empty save slot.
pub open spec fn empty_string() -> Seq<u8> {
    seq![101u8, 109, 112, 116, 121, 32, 115, 108, 111, 116]
}

/// Result of a menu step: the new state and the actions to perform.
pub type Step = (MenuModel, Seq<MenuAction>);

/// Switches to menu `id` with the cursor on its remembered item.
pub open spec fn setup_next(m: MenuModel, id: MenuId) -> MenuModel {
    MenuModel { current: id, item_on: m.last_on[id.idx()], ..m }
}

/// Switches to menu `id` with the cursor on its remembered item.
pub fn M_SetupNextMenu(state: &mut MenuState, id: MenuId)
    requires
        old(state)@.last_on.len() == 9,
    ensures
        final(state)@ == setup_next(old(state)@, id),
{
    state.current = id;
    state.item_on = state.last_on[id.to_usize()];
}

/// Choosing "Options": opens the options menu.
pub fn M_Options(state: &mut MenuState, _choice: i32)
    requires
        old(state)@.last_on.len() == 9,
    ensures
        final(state)@ == setup_next(old(state)@, MenuId::Options),
{
    M_SetupNextMenu(state, MenuId::Options);
}

/// Choosing "Sound Volume": opens the sound menu.
pub fn M_Sound(state: &mut MenuState, _choice: i32)
    requires
        old(state)@.last_on.len() == 9,
    ensures
        final(state)@ == setup_next(old(state)@, MenuId::Sound),
{
    M_SetupNextMenu(state, MenuId::Sound);
}

/// Choosing "Read This!": opens the first help screen.
pub fn M_ReadThis(state: &mut MenuState, _choice: i32)
    requires
        old(state)@.last_on.len() == 9,
    ensures
        final(state)@ == setup_next(old(state)@, MenuId::ReadThis1),
{
    M_SetupNextMenu(state, MenuId::ReadThis1);
}

/// Leaving the first help screen for the second.
pub fn M_ReadThis2(state: &mut MenuState, _choice: i32)
    requires
        old(state)@.last_on.len() == 9,
    ensures
        final(state)@ == setup_next(old(state)@, MenuId::ReadThis2),
{
    M_SetupNextMenu(state, MenuId::ReadThis2);
}

/// Leaving the last help screen: back to the main menu.
pub fn M_FinishReadThis(state: &mut MenuState, _choice: i32)
    requires
        old(state)@.last_on.len() == 9,
    ensures
        final(state)@ == setup_next(old(state)@, MenuId::Main),
{
    M_SetupNextMenu(state, MenuId::Main);
}

/// Closes the menu.
pub open spec fn clear_menus(m: MenuModel) -> MenuModel {
    MenuModel { menuactive: false, ..m }
}

/// Closes the menu.
pub fn M_ClearMenus(state: &mut MenuState)
    ensures
        final(state)@ == clear_menus(old(state)@),
{
    state.menuactive = false;
}

/// Shows a message; with `input` it waits for an answer that is passed to
/// `routine`.
pub open spec fn start_message(m: MenuModel, text: MenuText, routine: Option<MessageRoutine>, input: bool) -> MenuModel {
    MenuModel {
        message_last_menu_active: m.menuactive,
        message_to_print: true,
        message_string: Some(text),
        message_routine: routine,
        message_needs_input: input,
        menuactive: true,
        ..m
    }
}

/// Shows a message; with `input` it waits for an answer that is passed to
/// `routine`.
pub fn M_StartMessage(state: &mut MenuState, text: MenuText, routine: Option<MessageRoutine>, input: bool)
    ensures
        final(state)@ == start_message(old(state)@, text, routine, input),
{
    state.message_last_menu_active = state.menuactive;
    state.message_to_print = true;
    state.message_string = Some(text);
    state.message_routine = routine;
    state.message_needs_input = input;
    state.menuactive = true;
}

/// Opens the main menu (if the menu is not already up).
pub open spec fn start_control_panel(m: MenuModel) -> MenuModel {
    if m.menuactive {
        m
    } else {
        MenuModel { menuactive: true, current: MenuId::Main, item_on: m.last_on[0], ..m }
    }
}

/// Opens the main menu; the intro might call this repeatedly.
pub fn M_StartControlPanel(state: &mut MenuState)
    requires
        old(state)@.last_on.len() == 9,
    ensures
        final(state)@ == start_control_panel(old(state)@),
{
    if state.menuactive {
        return;
    }
    state.menuactive = true;
    state.current = MenuId::Main;
    state.item_on = state.last_on[0];
}

/// One tic of the skull animation: the skull changes every 8 tics.
pub open spec fn ticker(m: MenuModel) -> MenuModel {
    let c = m.skull_anim_counter - 1;
    if c <= 0 {
        MenuModel { which_skull: (if m.which_skull == 0 { 1i16 } else { 0i16 }), skull_anim_counter: 8, ..m }
    } else {
        MenuModel { skull_anim_counter: c as i16, ..m }
    }
}

/// Animates the skull cursor.
pub fn M_Ticker(state: &mut MenuState)
    requires
        0 <= old(state).skull_anim_counter <= 10,
        0 <= old(state).which_skull <= 1,
    ensures
        final(state)@ == ticker(old(state)@),
        0 <= final(state).skull_anim_counter <= 10,
        0 <= final(state).which_skull <= 1,
{
    state.skull_anim_counter = state.skull_anim_counter - 1;
    if state.skull_anim_counter <= 0 {
        state.which_skull = if state.which_skull == 0 { 1 } else { 0 };
        state.skull_anim_counter = 8;
    }
}

/// The menu state at startup, with the settings read from the defaults.
pub open spec fn menu_init(screenblocks: usize, detail: i32, show_messages: i32, mouse_sensitivity: i32, sfx_volume: i32, music_volume: i32, usegamma: i32, mode: GameMode_t) -> MenuModel {
    MenuModel {
        menuactive: false,
        current: MenuId::Main,
        item_on: 0,
        last_on: seq![0i16, 0, 2, 0, 0, 0, 0, 0, 0],
        load_status: seq![1i16, 1, 1, 1, 1, 1],
        message_to_print: false,
        message_string: None,
        message_last_menu_active: false,
        message_needs_input: false,
        message_routine: None,
        save_string_enter: false,
        save_slot: 0,
        save_char_index: 0,
        save_old_string: Seq::new(24, |i: int| 0u8),
        savegamestrings: Seq::new(144, |i: int| 0u8),
        quick_save_slot: -1i32,
        epi: 0,
        skull_anim_counter: 10,
        which_skull: 0,
        detail_level: detail,
        screenblocks,
        screen_size: (screenblocks - 3) as usize,
        show_messages,
        mouse_sensitivity,
        sfx_volume,
        music_volume,
        usegamma,
        inhelpscreens: false,
        joywait: 0,
        mousewait: 0,
        mousey: 0,
        lasty: 0,
        mousex: 0,
        lastx: 0,
    }
}

/// The settings read from the defaults are within the ranges the menus
/// can show.
pub open spec fn settings_ok(screenblocks: usize, detail: i32, show_messages: i32, mouse_sensitivity: i32, sfx_volume: i32, music_volume: i32, usegamma: i32) -> bool {
    &&& 3 <= screenblocks <= 11
    &&& 0 <= detail <= 1
    &&& 0 <= show_messages <= 1
    &&& 0 <= mouse_sensitivity <= 9
    &&& -1 <= sfx_volume <= 15
    &&& -1 <= music_volume <= 15
    &&& 0 <= usegamma <= 4
}

/// Sets up the menus for the game being played, with the settings read
/// from the defaults, as they are. The menus keep their invariant where
/// each setting is within the range its menu shows (see `settings_ok`).
pub fn M_Init(screenblocks: usize, detail: i32, show_messages: i32, mouse_sensitivity: i32, sfx_volume: i32, music_volume: i32, usegamma: i32, mode: GameMode_t) -> (r: MenuState)
    requires
        3 <= screenblocks,
    ensures
        r@ == menu_init(screenblocks, detail, show_messages, mouse_sensitivity, sfx_volume, music_volume, usegamma, mode),
        settings_ok(screenblocks, detail, show_messages, mouse_sensitivity, sfx_volume, music_volume, usegamma)
            ==> menu_wf(r@, mode),
{
    let r = MenuState {
        menuactive: false,
        current: MenuId::Main,
        item_on: 0,
        last_on: [0, 0, 2, 0, 0, 0, 0, 0, 0],
        load_status: [1, 1, 1, 1, 1, 1],
        message_to_print: false,
        message_string: None,
        message_last_menu_active: false,
        message_needs_input: false,
        message_routine: None,
        save_string_enter: false,
        save_slot: 0,
        save_char_index: 0,
        save_old_string: [0u8; 24],
        savegamestrings: [0u8; 144],
        quick_save_slot: -1,
        epi: 0,
        skull_anim_counter: 10,
        which_skull: 0,
        detail_level: detail,
        screenblocks,
        screen_size: screenblocks - 3,
        show_messages,
        mouse_sensitivity,
        sfx_volume,
        music_volume,
        usegamma,
        inhelpscreens: false,
        joywait: 0,
        mousewait: 0,
        mousey: 0,
        lasty: 0,
        mousex: 0,
        lastx: 0,
    };
    assert(r@.last_on == seq![0i16, 0, 2, 0, 0, 0, 0, 0, 0]);
    assert(r@.load_status == seq![1i16, 1, 1, 1, 1, 1]);
    assert(r@.save_old_string == Seq::new(24, |i: int| 0u8));
    assert(r@.savegamestrings == Seq::new(144, |i: int| 0u8));
    r
}

/// The bytes of save slot `k`.
pub open spec fn slot_bytes(m: MenuModel, k: int) -> Seq<u8> {
    m.savegamestrings.subrange(k * 24, k * 24 + 24)
}

/// Length of the zero-terminated string held in `s` (all of `s` if it
/// holds no zero).
pub open spec fn c_strlen(s: Seq<u8>) -> nat
    decreases s.len(),
{
    if s.len() == 0 || s[0] == 0 { 0 } else { 1 + c_strlen(s.drop_first()) }
}

proof fn lemma_c_strlen_step(s: Seq<u8>, i: int)
    requires
        0 <= i < s.len(),
        forall|j: int| 0 <= j < i ==> s[j] != 0,
    ensures
        s[i] == 0 ==> c_strlen(s) == i,
        s[i] != 0 ==> forall|j: int| 0 <= j <= i ==> s[j] != 0,
    decreases i,
{
    if i > 0 {
        lemma_c_strlen_step(s.drop_first(), i - 1);
    }
}

proof fn lemma_c_strlen_full(s: Seq<u8>)
    requires
        forall|j: int| 0 <= j < s.len() ==> s[j] != 0,
    ensures
        c_strlen(s) == s.len(),
    decreases s.len(),
{
    if s.len() > 0 {
        lemma_c_strlen_full(s.drop_first());
    }
}

proof fn lemma_c_strlen_bound(s: Seq<u8>)
    ensures
        c_strlen(s) <= s.len(),
        c_strlen(s) < s.len() ==> s[c_strlen(s) as int] == 0,
        forall|j: int| 0 <= j < c_strlen(s) ==> s[j] != 0,
    decreases s.len(),
{
    if s.len() > 0 && s[0] != 0 {
        lemma_c_strlen_bound(s.drop_first());
        assert forall|j: int| 0 <= j < c_strlen(s) implies s[j] != 0 by {
            if j > 0 {
                assert(s[j] == s.drop_first()[j - 1]);
            }
        }
    }
}

/// Length of the string in save slot `slot`.
pub fn save_string_len(state: &MenuState, slot: usize) -> (r: usize)
    requires
        slot < SAVESLOTS,
    ensures
        r as int == c_strlen(slot_bytes(state@, slot as int)),
        r <= 24,
{
    let base = slot * 24;
    let ghost s = slot_bytes(state@, slot as int);
    let mut i: usize = 0;
    while i < 24
        invariant
            0 <= i <= 24,
            base == slot * 24,
            slot < SAVESLOTS,
            s == slot_bytes(state@, slot as int),
            forall|j: int| 0 <= j < i ==> s[j] != 0,
        decreases 24 - i,
    {
        if state.savegamestrings[base + i] == 0 {
            proof { lemma_c_strlen_step(s, i as int); }
            return i;
        }
        i = i + 1;
    }
    proof { lemma_c_strlen_full(s); }
    24
}

/// Copy of the zero-terminated string `src` over `dst` (both 24 bytes):
/// the string and its terminator are copied, the rest of `dst` is kept.
pub open spec fn c_strcpy(dst: Seq<u8>, src: Seq<u8>) -> Seq<u8> {
    Seq::new(24, |k: int| if k <= c_strlen(src) && k < src.len() { src[k] } else { dst[k] })
}

/// Whether a save slot holds the "empty slot" description.
pub open spec fn is_empty_slot(s: Seq<u8>) -> bool {
    c_strlen(s) == 10 && s.subrange(0, 10) == empty_string()
}

/// Starting to type a description for save slot `choice`.
#[verifier::opaque]
pub open spec fn save_select(m: MenuModel, choice: int) -> MenuModel {
    let old_slot = slot_bytes(m, choice);
    let cleared = if is_empty_slot(old_slot) { m.savegamestrings.update(choice * 24, 0u8) } else { m.savegamestrings };
    let q = MenuModel {
        save_string_enter: true,
        save_slot: choice as usize,
        save_old_string: c_strcpy(m.save_old_string, old_slot),
        savegamestrings: cleared,
        ..m
    };
    MenuModel { save_char_index: c_strlen(slot_bytes(q, choice)) as usize, ..q }
}

/// User wants to save. Start string input for the responder.
pub fn M_SaveSelect(state: &mut MenuState, choice: usize)
    requires
        choice < SAVESLOTS,
    ensures
        final(state)@ == save_select(old(state)@, choice as int),
{
    reveal(save_select);
    // we are going to be intercepting all chars
    state.save_string_enter = true;
    state.save_slot = choice;
    let base = choice * 24;
    let n = save_string_len(state, choice);
    let ghost src = slot_bytes(state@, choice as int);
    proof { lemma_c_strlen_bound(src); }
    let mut k: usize = 0;
    while k < 24
        invariant
            0 <= k <= 24,
            base == choice * 24,
            choice < SAVESLOTS,
            n as int == c_strlen(src),
            src == slot_bytes(old(state)@, choice as int),
            state.savegamestrings@ == old(state).savegamestrings@,
            state.save_old_string@.len() == 24,
            forall|j: int| 0 <= j < k ==> state.save_old_string@[j] == c_strcpy(old(state).save_old_string@, src)[j],
            forall|j: int| k <= j < 24 ==> state.save_old_string@[j] == old(state).save_old_string@[j],
            state@ == (MenuModel { save_old_string: state.save_old_string@, ..save_select_pre(old(state)@, choice as int) }),
        decreases 24 - k,
    {
        if k <= n {
            state.save_old_string[k] = state.savegamestrings[base + k];
        }
        k = k + 1;
    }
    assert(state.save_old_string@ == c_strcpy(old(state).save_old_string@, src));
    let empty = n == 10 && is_empty_text(state, base);
    assert(src.subrange(0, 10) =~= state.savegamestrings@.subrange(base as int, base + 10));
    assert(empty == is_empty_slot(src));
    if empty {
        state.savegamestrings[base] = 0;
    }
    let ghost q = state@;
    state.save_char_index = save_string_len(state, choice);
    proof {
        let ghost cleared = if is_empty_slot(src) { old(state)@.savegamestrings.update(choice * 24, 0u8) } else { old(state)@.savegamestrings };
        assert(q.savegamestrings == cleared);
    }
}

/// The state after the first two assignments of `M_SaveSelect`.
pub open spec fn save_select_pre(m: MenuModel, choice: int) -> MenuModel {
    MenuModel { save_string_enter: true, save_slot: choice as usize, ..m }
}

/// Whether the ten bytes at `base` spell "empty slot".
fn is_empty_text(state: &MenuState, base: usize) -> (r: bool)
    requires
        base + 24 <= 144,
    ensures
        r == (state.savegamestrings@.subrange(base as int, base + 10) == empty_string()),
{
    let t: [u8; 10] = [101, 109, 112, 116, 121, 32, 115, 108, 111, 116];
    assert(t@ == empty_string());
    let mut i: usize = 0;
    while i < 10
        invariant
            0 <= i <= 10,
            base + 24 <= 144,
            t@ == empty_string(),
            forall|j: int| 0 <= j < i ==> state.savegamestrings@[base + j] == t@[j],
        decreases 10 - i,
    {
        if state.savegamestrings[base + i] != t[i] {
            assert(state.savegamestrings@.subrange(base as int, base + 10)[i as int] != empty_string()[i as int]);
            return false;
        }
        i = i + 1;
    }
    assert(state.savegamestrings@.subrange(base as int, base + 10) =~= empty_string());
    true
}

/// Choosing "New Game".
#[verifier::opaque]
pub open spec fn new_game(m: MenuModel, env: MenuEnv) -> MenuModel {
    if env.netgame && !env.demoplayback {
        start_message(m, MenuText::NEWGAME, None, false)
    } else if env.gamemode == GameMode_t::commercial {
        setup_next(m, MenuId::NewGame)
    } else {
        setup_next(m, MenuId::Episode)
    }
}

/// Choosing "New Game": not in a net game; DOOM II has no episodes.
pub fn M_NewGame(state: &mut MenuState, env: MenuEnv)
    requires
        old(state)@.last_on.len() == 9,
    ensures
        final(state)@ == new_game(old(state)@, env),
{
    reveal(new_game);
    if env.netgame && !env.demoplayback {
        M_StartMessage(state, MenuText::NEWGAME, None, false);
        return;
    }
    if env.gamemode == GameMode_t::commercial {
        M_SetupNextMenu(state, MenuId::NewGame);
    } else {
        M_SetupNextMenu(state, MenuId::Episode);
    }
}

/// Choosing "Load Game".
#[verifier::opaque]
pub open spec fn load_game(m: MenuModel, env: MenuEnv) -> Step {
    if env.netgame {
        (start_message(m, MenuText::LOADNET, None, false), seq![])
    } else {
        (setup_next(m, MenuId::Load), seq![MenuAction::ReadSaveStrings])
    }
}

/// Choosing "Load Game": not in a net game.
pub fn M_LoadGame(state: &mut MenuState, env: MenuEnv, actions: &mut Vec<MenuAction>)
    requires
        old(state)@.last_on.len() == 9,
    ensures
        (final(state)@, final(actions)@) == ({
            let (q, a) = load_game(old(state)@, env);
            (q, old(actions)@ + a)
        }),
{
    reveal(load_game);
    if env.netgame {
        M_StartMessage(state, MenuText::LOADNET, None, false);
        assert(actions@ == old(actions)@ + Seq::<MenuAction>::empty());
        return;
    }
    M_SetupNextMenu(state, MenuId::Load);
    actions.push(MenuAction::ReadSaveStrings);
}

/// Choosing "Save Game".
#[verifier::opaque]
pub open spec fn save_game(m: MenuModel, env: MenuEnv) -> Step {
    if !env.usergame {
        (start_message(m, MenuText::SAVEDEAD, None, false), seq![])
    } else if !env.in_level {
        (m, seq![])
    } else {
        (setup_next(m, MenuId::Save), seq![MenuAction::ReadSaveStrings])
    }
}

/// Choosing "Save Game": only while playing a level of a game the user started.
pub fn M_SaveGame(state: &mut MenuState, env: MenuEnv, actions: &mut Vec<MenuAction>)
    requires
        old(state)@.last_on.len() == 9,
    ensures
        (final(state)@, final(actions)@) == ({
            let (q, a) = save_game(old(state)@, env);
            (q, old(actions)@ + a)
        }),
{
    reveal(save_game);
    if !env.usergame {
        M_StartMessage(state, MenuText::SAVEDEAD, None, false);
        assert(actions@ == old(actions)@ + Seq::<MenuAction>::empty());
        return;
    }
    if !env.in_level {
        assert(actions@ == old(actions)@ + Seq::<MenuAction>::empty());
        return;
    }
    M_SetupNextMenu(state, MenuId::Save);
    actions.push(MenuAction::ReadSaveStrings);
}

/// The number of the quit message shown: the language-sensitive first one
/// outside English, otherwise one chosen by the game tic.
pub open spec fn quit_message_index(env: MenuEnv) -> int {
    if !env.english { 0 } else { (env.gametic % (NUM_QUITMESSAGES - 2) as u32) as int + 1 }
}

/// Choosing "Quit Game": asks for confirmation.
pub fn M_QuitDOOM(state: &mut MenuState, env: MenuEnv)
    ensures
        final(state)@ == start_message(
            old(state)@,
            MenuText::Quit(quit_message_index(env) as usize),
            Some(MessageRoutine::QuitResponse),
            true,
        ),
{
    // We pick index 0 which is language sensitive, or one at random,
    // between 1 and maximum number.
    let index: usize = if !env.english { 0 } else { (env.gametic % (NUM_QUITMESSAGES - 2)) as usize + 1 };
    M_StartMessage(state, MenuText::Quit(index), Some(MessageRoutine::QuitResponse), true);
}

/// Choosing episode `choice`.
#[verifier::opaque]
pub open spec fn episode(m: MenuModel, choice: int, env: MenuEnv) -> Step {
    if env.gamemode == GameMode_t::shareware && choice != 0 {
        (setup_next(start_message(m, MenuText::SWSTRING, None, false), MenuId::ReadThis1), seq![])
    } else {
        let (c, a) = if env.gamemode == GameMode_t::registered && choice > 2 {
            (0int, seq![MenuAction::FourthEpisodeNeedsUltimate])
        } else {
            (choice, seq![])
        };
        (setup_next(MenuModel { epi: c as usize, ..m }, MenuId::NewGame), a)
    }
}

/// Choosing an episode: the shareware game advertises the full one, the
/// registered game has no fourth episode.
pub fn M_Episode(state: &mut MenuState, choice: i32, env: MenuEnv, actions: &mut Vec<MenuAction>)
    requires
        old(state)@.last_on.len() == 9,
        0 <= choice <= 3,
    ensures
        (final(state)@, final(actions)@) == ({
            let (q, a) = episode(old(state)@, choice as int, env);
            (q, old(actions)@ + a)
        }),
{
    reveal(episode);
    let mut choice = choice;
    if env.gamemode == GameMode_t::shareware && choice != 0 {
        M_StartMessage(state, MenuText::SWSTRING, None, false);
        M_SetupNextMenu(state, MenuId::ReadThis1);
        assert(actions@ == old(actions)@ + Seq::<MenuAction>::empty());
        return;
    }
    // Yet another hack...
    if env.gamemode == GameMode_t::registered && choice > 2 {
        actions.push(MenuAction::FourthEpisodeNeedsUltimate);
        choice = 0;
    } else {
        assert(actions@ == old(actions)@ + Seq::<MenuAction>::empty());
    }
    state.epi = choice as usize;
    M_SetupNextMenu(state, MenuId::NewGame);
}

/// The skill level with the given number.
pub open spec fn skill_of(choice: int) -> skill_t {
    if choice == 0 {
        skill_t::sk_baby
    } else if choice == 1 {
        skill_t::sk_easy
    } else if choice == 2 {
        skill_t::sk_medium
    } else if choice == 3 {
        skill_t::sk_hard
    } else {
        skill_t::sk_nightmare
    }
}

/// The skill level with the given number.
pub fn skill_from(choice: i32) -> (r: skill_t)
    ensures
        r == skill_of(choice as int),
{
    if choice == 0 {
        skill_t::sk_baby
    } else if choice == 1 {
        skill_t::sk_easy
    } else if choice == 2 {
        skill_t::sk_medium
    } else if choice == 3 {
        skill_t::sk_hard
    } else {
        skill_t::sk_nightmare
    }
}

/// Choosing skill `choice`.
#[verifier::opaque]
pub open spec fn choose_skill(m: MenuModel, choice: int) -> Step {
    if choice == 4 {
        (start_message(m, MenuText::NIGHTMARE, Some(MessageRoutine::VerifyNightmare), true), seq![])
    } else {
        (clear_menus(m), seq![MenuAction::NewGame(skill_of(choice), (m.epi + 1) as usize, 1)])
    }
}

/// Choosing a skill starts a new game; nightmare asks for confirmation.
pub fn M_ChooseSkill(state: &mut MenuState, choice: i32, actions: &mut Vec<MenuAction>)
    requires
        0 <= choice <= 4,
        old(state).epi <= 3,
    ensures
        (final(state)@, final(actions)@) == ({
            let (q, a) = choose_skill(old(state)@, choice as int);
            (q, old(actions)@ + a)
        }),
{
    reveal(choose_skill);
    if choice == 4 {
        M_StartMessage(state, MenuText::NIGHTMARE, Some(MessageRoutine::VerifyNightmare), true);
        assert(actions@ == old(actions)@ + Seq::<MenuAction>::empty());
        return;
    }
    actions.push(MenuAction::NewGame(skill_from(choice), state.epi + 1, 1));
    M_ClearMenus(state);
}

/// Choosing "End Game".
#[verifier::opaque]
pub open spec fn end_game(m: MenuModel, env: MenuEnv) -> Step {
    if !env.usergame {
        (m, seq![MenuAction::StartSound(sfxenum_t::sfx_oof)])
    } else if env.netgame {
        (start_message(m, MenuText::NETEND, None, false), seq![])
    } else {
        (start_message(m, MenuText::ENDGAME, Some(MessageRoutine::EndGameResponse), true), seq![])
    }
}

/// Choosing "End Game": asks for confirmation; not in a net game.
pub fn M_EndGame(state: &mut MenuState, env: MenuEnv, actions: &mut Vec<MenuAction>)
    ensures
        (final(state)@, final(actions)@) == ({
            let (q, a) = end_game(old(state)@, env);
            (q, old(actions)@ + a)
        }),
{
    reveal(end_game);
    if !env.usergame {
        actions.push(MenuAction::StartSound(sfxenum_t::sfx_oof));
        return;
    }
    assert(actions@ == old(actions)@ + Seq::<MenuAction>::empty());
    if env.netgame {
        M_StartMessage(state, MenuText::NETEND, None, false);
        return;
    }
    M_StartMessage(state, MenuText::ENDGAME, Some(MessageRoutine::EndGameResponse), true);
}

/// Toggling messages on and off.
#[verifier::opaque]
pub open spec fn change_messages(m: MenuModel) -> Step {
    let show = 1 - m.show_messages;
    (MenuModel { show_messages: show as i32, ..m }, seq![MenuAction::PlayerMessage(if show == 0 { Message::MSGOFF } else { Message::MSGON })])
}

/// Toggles messages on and off, telling the player.
pub fn M_ChangeMessages(state: &mut MenuState, actions: &mut Vec<MenuAction>)
    requires
        0 <= old(state).show_messages <= 1,
    ensures
        (final(state)@, final(actions)@) == ({
            let (q, a) = change_messages(old(state)@);
            (q, old(actions)@ + a)
        }),
{
    reveal(change_messages);
    state.show_messages = 1 - state.show_messages;
    if state.show_messages == 0 {
        actions.push(MenuAction::PlayerMessage(Message::MSGOFF));
    } else {
        actions.push(MenuAction::PlayerMessage(Message::MSGON));
    }
}

/// Toggles the detail level (low detail is not available).
pub fn M_ChangeDetail(state: &mut MenuState, actions: &mut Vec<MenuAction>)
    requires
        0 <= old(state).detail_level <= 1,
    ensures
        final(state)@ == (MenuModel { detail_level: (1 - old(state).detail_level) as i32, ..old(state)@ }),
        final(actions)@ == old(actions)@.push(MenuAction::DetailNotAvailable),
{
    state.detail_level = 1 - state.detail_level;
    actions.push(MenuAction::DetailNotAvailable);
}

/// Changing the screen size: 0 smaller, 1 larger, within 9 steps.
#[verifier::opaque]
pub open spec fn size_display(m: MenuModel, choice: int) -> Step {
    let q = if choice == 0 && m.screen_size > 0 {
        MenuModel { screenblocks: (m.screenblocks - 1) as usize, screen_size: (m.screen_size - 1) as usize, ..m }
    } else if choice == 1 && m.screen_size < 8 {
        MenuModel { screenblocks: (m.screenblocks + 1) as usize, screen_size: (m.screen_size + 1) as usize, ..m }
    } else {
        m
    };
    (q, seq![MenuAction::SetViewSize(q.screenblocks, q.detail_level)])
}

/// Changes the screen size and asks for the new view size.
pub fn M_SizeDisplay(state: &mut MenuState, choice: i32, actions: &mut Vec<MenuAction>)
    requires
        3 <= old(state).screenblocks <= 11,
        old(state).screen_size == old(state).screenblocks - 3,
    ensures
        (final(state)@, final(actions)@) == ({
            let (q, a) = size_display(old(state)@, choice as int);
            (q, old(actions)@ + a)
        }),
{
    reveal(size_display);
    if choice == 0 && state.screen_size > 0 {
        state.screenblocks = state.screenblocks - 1;
        state.screen_size = state.screen_size - 1;
    } else if choice == 1 && state.screen_size < 8 {
        state.screenblocks = state.screenblocks + 1;
        state.screen_size = state.screen_size + 1;
    }
    actions.push(MenuAction::SetViewSize(state.screenblocks, state.detail_level));
}

/// Changing the mouse sensitivity: 0 lower, 1 higher, between 0 and 9.
#[verifier::opaque]
pub open spec fn change_sensitivity(m: MenuModel, choice: int) -> MenuModel {
    if choice == 0 && m.mouse_sensitivity != 0 {
        MenuModel { mouse_sensitivity: (m.mouse_sensitivity - 1) as i32, ..m }
    } else if choice == 1 && m.mouse_sensitivity < 9 {
        MenuModel { mouse_sensitivity: (m.mouse_sensitivity + 1) as i32, ..m }
    } else {
        m
    }
}

/// Changes the mouse sensitivity.
pub fn M_ChangeSensitivity(state: &mut MenuState, choice: i32)
    requires
        0 <= old(state).mouse_sensitivity <= 9,
    ensures
        final(state)@ == change_sensitivity(old(state)@, choice as int),
{
    reveal(change_sensitivity);
    if choice == 0 && state.mouse_sensitivity != 0 {
        state.mouse_sensitivity = state.mouse_sensitivity - 1;
    } else if choice == 1 && state.mouse_sensitivity < 9 {
        state.mouse_sensitivity = state.mouse_sensitivity + 1;
    }
}

/// A volume after pressing left (0: one lower, saturating) or right
/// (1: one higher, up to 15).
pub open spec fn volume_step(v: int, choice: int) -> int {
    if choice == 0 {
        if v == i32::MIN { v } else { v - 1 }
    } else if choice == 1 && v < 15 {
        v + 1
    } else {
        v
    }
}

/// Changes the sound effects volume and passes it on.
pub fn M_SfxVol(state: &mut MenuState, choice: i32, actions: &mut Vec<MenuAction>)
    requires
        old(state).sfx_volume <= 15,
    ensures
        final(state)@ == (MenuModel { sfx_volume: volume_step(old(state).sfx_volume as int, choice as int) as i32, ..old(state)@ }),
        final(actions)@ == old(actions)@.push(MenuAction::SetSfxVolume(final(state).sfx_volume)),
{
    if choice == 0 {
        state.sfx_volume = if state.sfx_volume == i32::MIN { state.sfx_volume } else { state.sfx_volume - 1 };
    } else if choice == 1 && state.sfx_volume < 15 {
        state.sfx_volume = state.sfx_volume + 1;
    }
    actions.push(MenuAction::SetSfxVolume(state.sfx_volume));
}

/// Changes the music volume and passes it on.
pub fn M_MusicVol(state: &mut MenuState, choice: i32, actions: &mut Vec<MenuAction>)
    requires
        old(state).music_volume <= 15,
    ensures
        final(state)@ == (MenuModel { music_volume: volume_step(old(state).music_volume as int, choice as int) as i32, ..old(state)@ }),
        final(actions)@ == old(actions)@.push(MenuAction::SetMusicVolume(final(state).music_volume)),
{
    if choice == 0 {
        state.music_volume = if state.music_volume == i32::MIN { state.music_volume } else { state.music_volume - 1 };
    } else if choice == 1 && state.music_volume < 15 {
        state.music_volume = state.music_volume + 1;
    }
    actions.push(MenuAction::SetMusicVolume(state.music_volume));
}

/// User wants to load the game in slot `choice`.
pub fn M_LoadSelect(state: &mut MenuState, choice: i32, actions: &mut Vec<MenuAction>)
    ensures
        final(state)@ == clear_menus(old(state)@),
        final(actions)@ == old(actions)@.push(MenuAction::LoadGame(choice)),
{
    actions.push(MenuAction::LoadGame(choice));
    M_ClearMenus(state);
}

/// Saving in `slot` once its description is entered.
#[verifier::opaque]
pub open spec fn do_save(m: MenuModel, slot: int) -> Step {
    let q = clear_menus(m);
    let q2 = if m.quick_save_slot == -2 { MenuModel { quick_save_slot: slot as i32, ..q } } else { q };
    (q2, seq![MenuAction::SaveGame(slot as usize)])
}

/// Saves the game in `slot`; picks it as the quick save slot if one is
/// being chosen.
pub fn M_DoSave(state: &mut MenuState, slot: usize, actions: &mut Vec<MenuAction>)
    requires
        slot < SAVESLOTS,
    ensures
        (final(state)@, final(actions)@) == ({
            let (q, a) = do_save(old(state)@, slot as int);
            (q, old(actions)@ + a)
        }),
{
    reveal(do_save);
    actions.push(MenuAction::SaveGame(slot));
    M_ClearMenus(state);
    // PICK QUICKSAVE SLOT YET?
    if state.quick_save_slot == -2 {
        state.quick_save_slot = slot as i32;
    }
}

/// The quick save key.
#[verifier::opaque]
pub open spec fn quick_save(m: MenuModel, env: MenuEnv) -> Step {
    if !env.usergame {
        (m, seq![MenuAction::StartSound(sfxenum_t::sfx_oof)])
    } else if !env.in_level {
        (m, seq![])
    } else if m.quick_save_slot < 0 {
        let q = setup_next(start_control_panel(m), MenuId::Save);
        (MenuModel { quick_save_slot: -2i32, ..q }, seq![MenuAction::ReadSaveStrings])
    } else {
        (start_message(m, MenuText::QSPROMPT(m.quick_save_slot as usize), Some(MessageRoutine::QuickSaveResponse), true), seq![])
    }
}

/// Quick save: the first time a slot is picked in the save menu.
pub fn M_QuickSave(state: &mut MenuState, env: MenuEnv, actions: &mut Vec<MenuAction>)
    requires
        old(state)@.last_on.len() == 9,
    ensures
        (final(state)@, final(actions)@) == ({
            let (q, a) = quick_save(old(state)@, env);
            (q, old(actions)@ + a)
        }),
{
    reveal(quick_save);
    if !env.usergame {
        actions.push(MenuAction::StartSound(sfxenum_t::sfx_oof));
        return;
    }
    assert(actions@ == old(actions)@ + Seq::<MenuAction>::empty());
    if !env.in_level {
        return;
    }
    if state.quick_save_slot < 0 {
        M_StartControlPanel(state);
        actions.push(MenuAction::ReadSaveStrings);
        M_SetupNextMenu(state, MenuId::Save);
        state.quick_save_slot = -2; // means to pick a slot now
        return;
    }
    let slot = state.quick_save_slot as usize;
    M_StartMessage(state, MenuText::QSPROMPT(slot), Some(MessageRoutine::QuickSaveResponse), true);
}

/// The quick load key.
#[verifier::opaque]
pub open spec fn quick_load(m: MenuModel, env: MenuEnv) -> MenuModel {
    if env.netgame {
        start_message(m, MenuText::QLOADNET, None, false)
    } else if m.quick_save_slot < 0 {
        start_message(m, MenuText::QSAVESPOT, None, false)
    } else {
        start_message(m, MenuText::QLPROMPT(m.quick_save_slot as usize), Some(MessageRoutine::QuickLoadResponse), true)
    }
}

/// Quick load: asks for confirmation; needs a quick save slot.
pub fn M_QuickLoad(state: &mut MenuState, env: MenuEnv)
    ensures
        final(state)@ == quick_load(old(state)@, env),
{
    reveal(quick_load);
    if env.netgame {
        M_StartMessage(state, MenuText::QLOADNET, None, false);
        return;
    }
    if state.quick_save_slot < 0 {
        M_StartMessage(state, MenuText::QSAVESPOT, None, false);
        return;
    }
    let slot = state.quick_save_slot as usize;
    M_StartMessage(state, MenuText::QLPROMPT(slot), Some(MessageRoutine::QuickLoadResponse), true);
}

/// The answer "yes" to a confirmation message.
pub const KEY_Y: i32 = 121;

/// The sound played when quitting DOOM II, per game tic.
pub open spec fn quit_sound(env: MenuEnv) -> sfxenum_t {
    let i = (env.gametic / 4) % 8;
    if env.gamemode == GameMode_t::commercial {
        if i == 0 { sfxenum_t::sfx_vilact } else if i == 1 { sfxenum_t::sfx_getpow } else if i == 2 { sfxenum_t::sfx_boscub }
        else if i == 3 { sfxenum_t::sfx_slop } else if i == 4 { sfxenum_t::sfx_skeswg } else if i == 5 { sfxenum_t::sfx_kntdth }
        else if i == 6 { sfxenum_t::sfx_bspact } else { sfxenum_t::sfx_sgtatk }
    } else {
        if i == 0 { sfxenum_t::sfx_pldeth } else if i == 1 { sfxenum_t::sfx_dmpain } else if i == 2 { sfxenum_t::sfx_popain }
        else if i == 3 { sfxenum_t::sfx_slop } else if i == 4 { sfxenum_t::sfx_telept } else if i == 5 { sfxenum_t::sfx_posit1 }
        else if i == 6 { sfxenum_t::sfx_posit3 } else { sfxenum_t::sfx_sgtatk }
    }
}

/// The sound played when quitting.
pub fn quitsound(env: MenuEnv) -> (r: sfxenum_t)
    ensures
        r == quit_sound(env),
{
    let t = env.gametic;
    let i = (t >> 2u32) & 7;
    assert(t >> 2u32 == t / 4) by (bit_vector);
    assert(((t >> 2u32) & 7) == (t >> 2u32) % 8) by (bit_vector);
    if env.gamemode == GameMode_t::commercial {
        if i == 0 { sfxenum_t::sfx_vilact } else if i == 1 { sfxenum_t::sfx_getpow } else if i == 2 { sfxenum_t::sfx_boscub }
        else if i == 3 { sfxenum_t::sfx_slop } else if i == 4 { sfxenum_t::sfx_skeswg } else if i == 5 { sfxenum_t::sfx_kntdth }
        else if i == 6 { sfxenum_t::sfx_bspact } else { sfxenum_t::sfx_sgtatk }
    } else {
        if i == 0 { sfxenum_t::sfx_pldeth } else if i == 1 { sfxenum_t::sfx_dmpain } else if i == 2 { sfxenum_t::sfx_popain }
        else if i == 3 { sfxenum_t::sfx_slop } else if i == 4 { sfxenum_t::sfx_telept } else if i == 5 { sfxenum_t::sfx_posit1 }
        else if i == 6 { sfxenum_t::sfx_posit3 } else { sfxenum_t::sfx_sgtatk }
    }
}

/// Answering a confirmation message with key `ch`.
#[verifier::opaque]
pub open spec fn message_response(m: MenuModel, r: MessageRoutine, ch: int, env: MenuEnv) -> Step {
    if ch != KEY_Y {
        (m, seq![])
    } else {
        match r {
            MessageRoutine::QuickSaveResponse => {
                let (q, a) = do_save(m, m.quick_save_slot as int);
                (q, a.push(MenuAction::StartSound(sfxenum_t::sfx_swtchx)))
            },
            MessageRoutine::QuickLoadResponse => (
                clear_menus(m),
                seq![MenuAction::LoadGame(m.quick_save_slot), MenuAction::StartSound(sfxenum_t::sfx_swtchx)],
            ),
            MessageRoutine::VerifyNightmare => (
                clear_menus(m),
                seq![MenuAction::NewGame(skill_t::sk_nightmare, (m.epi + 1) as usize, 1)],
            ),
            MessageRoutine::EndGameResponse => (
                clear_menus(MenuModel { last_on: m.last_on.update(m.current.idx(), m.item_on), ..m }),
                seq![MenuAction::StartTitle],
            ),
            MessageRoutine::QuitResponse => (
                m,
                (if !env.netgame { seq![MenuAction::StartSound(quit_sound(env)), MenuAction::WaitVBL(105)] } else { seq![] })
                    .push(MenuAction::Quit),
            ),
        }
    }
}

/// Passes the answer `ch` to a message routine.
pub fn M_MessageResponse(state: &mut MenuState, r: MessageRoutine, ch: i32, env: MenuEnv, actions: &mut Vec<MenuAction>)
    requires
        (r == MessageRoutine::QuickSaveResponse ==> 0 <= old(state).quick_save_slot < SAVESLOTS),
        old(state).epi <= 3,
        old(state)@.last_on.len() == 9,
    ensures
        (final(state)@, final(actions)@) == ({
            let (q, a) = message_response(old(state)@, r, ch as int, env);
            (q, old(actions)@ + a)
        }),
{
    reveal(message_response);
    if ch != KEY_Y {
        assert(actions@ == old(actions)@ + Seq::<MenuAction>::empty());
        return;
    }
    match r {
        MessageRoutine::QuickSaveResponse => {
            M_DoSave(state, state.quick_save_slot as usize, actions);
            actions.push(MenuAction::StartSound(sfxenum_t::sfx_swtchx));
        },
        MessageRoutine::QuickLoadResponse => {
            M_LoadSelect(state, state.quick_save_slot, actions);
            actions.push(MenuAction::StartSound(sfxenum_t::sfx_swtchx));
        },
        MessageRoutine::VerifyNightmare => {
            actions.push(MenuAction::NewGame(skill_t::sk_nightmare, state.epi + 1, 1));
            M_ClearMenus(state);
        },
        MessageRoutine::EndGameResponse => {
            state.last_on[state.current.to_usize()] = state.item_on;
            M_ClearMenus(state);
            actions.push(MenuAction::StartTitle);
        },
        MessageRoutine::QuitResponse => {
            if !env.netgame {
                actions.push(MenuAction::StartSound(quitsound(env)));
                actions.push(MenuAction::WaitVBL(105));
            }
            actions.push(MenuAction::Quit);
        },
    }
}

/// Calling the routine of a menu item with `choice` (the item number, or
/// 0 for left and 1 for right on a slider).
#[verifier::opaque]
pub open spec fn routine_step(m: MenuModel, r: MenuRoutine, choice: int, env: MenuEnv) -> Step {
    match r {
        MenuRoutine::NewGame => (new_game(m, env), seq![]),
        MenuRoutine::Options => (setup_next(m, MenuId::Options), seq![]),
        MenuRoutine::LoadGame => load_game(m, env),
        MenuRoutine::SaveGame => save_game(m, env),
        MenuRoutine::ReadThis => (setup_next(m, MenuId::ReadThis1), seq![]),
        MenuRoutine::QuitDoom => (
            start_message(m, MenuText::Quit(quit_message_index(env) as usize), Some(MessageRoutine::QuitResponse), true),
            seq![],
        ),
        MenuRoutine::Episode => episode(m, choice, env),
        MenuRoutine::ChooseSkill => choose_skill(m, choice),
        MenuRoutine::EndGame => end_game(m, env),
        MenuRoutine::ChangeMessages => change_messages(m),
        MenuRoutine::ChangeDetail => (MenuModel { detail_level: (1 - m.detail_level) as i32, ..m }, seq![MenuAction::DetailNotAvailable]),
        MenuRoutine::SizeDisplay => size_display(m, choice),
        MenuRoutine::ChangeSensitivity => (change_sensitivity(m, choice), seq![]),
        MenuRoutine::Sound => (setup_next(m, MenuId::Sound), seq![]),
        MenuRoutine::ReadThis2 => (setup_next(m, MenuId::ReadThis2), seq![]),
        MenuRoutine::FinishReadThis => (setup_next(m, MenuId::Main), seq![]),
        MenuRoutine::SfxVol => {
            let v = volume_step(m.sfx_volume as int, choice) as i32;
            (MenuModel { sfx_volume: v, ..m }, seq![MenuAction::SetSfxVolume(v)])
        },
        MenuRoutine::MusicVol => {
            let v = volume_step(m.music_volume as int, choice) as i32;
            (MenuModel { music_volume: v, ..m }, seq![MenuAction::SetMusicVolume(v)])
        },
        MenuRoutine::LoadSelect => (clear_menus(m), seq![MenuAction::LoadGame(choice as i32)]),
        MenuRoutine::SaveSelect => (save_select(m, choice), seq![]),
    }
}

/// What a routine needs of its choice.
pub open spec fn routine_choice_ok(r: MenuRoutine, choice: int) -> bool {
    &&& 0 <= choice < 8
    &&& (r == MenuRoutine::Episode ==> choice <= 3)
    &&& (r == MenuRoutine::ChooseSkill ==> choice <= 4)
    &&& (r == MenuRoutine::SaveSelect ==> choice < 6)
}

/// The episode, skill and save routines belong to their own menus.
proof fn lemma_item_routine(id: MenuId, i: int, mode: GameMode_t, ls: Seq<i16>)
    ensures
        item_at(id, i, mode, ls).routine == Some(MenuRoutine::Episode) ==> id == MenuId::Episode,
        item_at(id, i, mode, ls).routine == Some(MenuRoutine::ChooseSkill) ==> id == MenuId::NewGame,
        item_at(id, i, mode, ls).routine == Some(MenuRoutine::SaveSelect) ==> id == MenuId::Save,
{
    reveal(item_at);
}

/// Calls the routine of a menu item.
pub fn M_CallRoutine(state: &mut MenuState, r: MenuRoutine, choice: i32, env: MenuEnv, actions: &mut Vec<MenuAction>)
    requires
        menu_wf(old(state)@, env.gamemode),
        routine_choice_ok(r, choice as int),
    ensures
        (final(state)@, final(actions)@) == ({
            let (q, a) = routine_step(old(state)@, r, choice as int, env);
            (q, old(actions)@ + a)
        }),
{
    reveal(routine_step);
    match r {
        MenuRoutine::NewGame => {
            M_NewGame(state, env);
            assert(actions@ == old(actions)@ + Seq::<MenuAction>::empty());
        },
        MenuRoutine::Options => {
            M_Options(state, choice);
            assert(actions@ == old(actions)@ + Seq::<MenuAction>::empty());
        },
        MenuRoutine::LoadGame => M_LoadGame(state, env, actions),
        MenuRoutine::SaveGame => M_SaveGame(state, env, actions),
        MenuRoutine::ReadThis => {
            M_ReadThis(state, choice);
            assert(actions@ == old(actions)@ + Seq::<MenuAction>::empty());
        },
        MenuRoutine::QuitDoom => {
            M_QuitDOOM(state, env);
            assert(actions@ == old(actions)@ + Seq::<MenuAction>::empty());
        },
        MenuRoutine::Episode => M_Episode(state, choice, env, actions),
        MenuRoutine::ChooseSkill => M_ChooseSkill(state, choice, actions),
        MenuRoutine::EndGame => M_EndGame(state, env, actions),
        MenuRoutine::ChangeMessages => M_ChangeMessages(state, actions),
        MenuRoutine::ChangeDetail => {
            M_ChangeDetail(state, actions);
            assert(actions@ == old(actions)@ + seq![MenuAction::DetailNotAvailable]);
        },
        MenuRoutine::SizeDisplay => M_SizeDisplay(state, choice, actions),
        MenuRoutine::ChangeSensitivity => {
            M_ChangeSensitivity(state, choice);
            assert(actions@ == old(actions)@ + Seq::<MenuAction>::empty());
        },
        MenuRoutine::Sound => {
            M_Sound(state, choice);
            assert(actions@ == old(actions)@ + Seq::<MenuAction>::empty());
        },
        MenuRoutine::ReadThis2 => {
            M_ReadThis2(state, choice);
            assert(actions@ == old(actions)@ + Seq::<MenuAction>::empty());
        },
        MenuRoutine::FinishReadThis => {
            M_FinishReadThis(state, choice);
            assert(actions@ == old(actions)@ + Seq::<MenuAction>::empty());
        },
        MenuRoutine::SfxVol => {
            M_SfxVol(state, choice, actions);
            assert(actions@ == old(actions)@ + seq![MenuAction::SetSfxVolume(state.sfx_volume)]);
        },
        MenuRoutine::MusicVol => {
            M_MusicVol(state, choice, actions);
            assert(actions@ == old(actions)@ + seq![MenuAction::SetMusicVolume(state.music_volume)]);
        },
        MenuRoutine::LoadSelect => {
            M_LoadSelect(state, choice, actions);
            assert(actions@ == old(actions)@ + seq![MenuAction::LoadGame(choice)]);
        },
        MenuRoutine::SaveSelect => {
            M_SaveSelect(state, choice as usize);
            assert(actions@ == old(actions)@ + Seq::<MenuAction>::empty());
        },
    }
}

/// Kinds of input events.
#[derive(Debug, Clone, Copy, PartialEq, Eq, Structural)]
pub enum evtype_t {
    ev_keydown,
    ev_keyup,
    ev_mouse,
    ev_joystick,
}

/// An input event: keys in `data1`; mouse and joystick buttons in `data1`
/// and motion in `data2` (x) and `data3` (y).
#[derive(Debug, Clone, Copy, PartialEq, Eq, Structural)]
pub struct event_t {
    pub ty: evtype_t,
    pub data1: i32,
    pub data2: i32,
    pub data3: i32,
}

pub const KEY_RIGHTARROW: i32 = 0xae;
pub const KEY_LEFTARROW: i32 = 0xac;
pub const KEY_UPARROW: i32 = 0xad;
pub const KEY_DOWNARROW: i32 = 0xaf;
pub const KEY_ESCAPE: i32 = 27;
pub const KEY_ENTER: i32 = 13;
pub const KEY_BACKSPACE: i32 = 127;
pub const KEY_EQUALS: i32 = 0x3d;
pub const KEY_MINUS: i32 = 0x2d;
pub const KEY_F1: i32 = 0x80 + 0x3b;
pub const KEY_F2: i32 = 0x80 + 0x3c;
pub const KEY_F3: i32 = 0x80 + 0x3d;
pub const KEY_F4: i32 = 0x80 + 0x3e;
pub const KEY_F5: i32 = 0x80 + 0x3f;
pub const KEY_F6: i32 = 0x80 + 0x40;
pub const KEY_F7: i32 = 0x80 + 0x41;
pub const KEY_F8: i32 = 0x80 + 0x42;
pub const KEY_F9: i32 = 0x80 + 0x43;
pub const KEY_F10: i32 = 0x80 + 0x44;
pub const KEY_F11: i32 = 0x80 + 0x57;

/// The first character of the heads-up font, and its number of characters.
pub const HU_FONTSTART: i32 = 33;
pub const HU_FONTSIZE: i32 = 63;

/// Upper case of a character code.
pub open spec fn to_upper(c: int) -> int {
    if 97 <= c <= 122 { c - 32 } else { c }
}

/// Upper case of a character code.
pub fn toupper(c: i32) -> (r: i32)
    ensures
        r as int == to_upper(c as int),
{
    if 97 <= c && c <= 122 {
        c - 32
    } else {
        c
    }
}

/// Width of a character in the heads-up font: 4 for characters the font
/// does not have (bytes above 127 are negative characters).
pub open spec fn char_width(b: u8, font: Seq<u16>) -> int {
    let c = if b >= 128 { -1 } else { to_upper(b as int) - HU_FONTSTART };
    if c < 0 || c >= HU_FONTSIZE { 4 } else { font[c] as int }
}

/// Width of the characters of `s` in the heads-up font.
pub open spec fn chars_width(s: Seq<u8>, font: Seq<u16>) -> int
    decreases s.len(),
{
    if s.len() == 0 { 0 } else { chars_width(s.drop_last(), font) + char_width(s.last(), font) }
}

/// Width of the string in save slot `slot`.
pub open spec fn slot_width(m: MenuModel, slot: int, font: Seq<u16>) -> int {
    let b = slot_bytes(m, slot);
    chars_width(b.take(c_strlen(b) as int), font)
}

proof fn lemma_chars_width_bound(s: Seq<u8>, font: Seq<u16>)
    requires
        font.len() == HU_FONTSIZE,
    ensures
        0 <= chars_width(s, font) <= s.len() * 65535,
    decreases s.len(),
{
    if s.len() > 0 {
        lemma_chars_width_bound(s.drop_last(), font);
    }
}

/// Finds the width of the string in save slot `slot` from the heads-up
/// font's character widths.
pub fn M_StringWidth(state: &MenuState, slot: usize, font: &[u16]) -> (r: usize)
    requires
        slot < SAVESLOTS,
        font@.len() == HU_FONTSIZE,
    ensures
        r as int == slot_width(state@, slot as int, font@),
{
    let n = save_string_len(state, slot);
    let base = slot * 24;
    let ghost b = slot_bytes(state@, slot as int);
    let mut w: usize = 0;
    let mut i: usize = 0;
    while i < n
        invariant
            0 <= i <= n <= 24,
            base == slot * 24,
            slot < SAVESLOTS,
            font@.len() == HU_FONTSIZE,
            b == slot_bytes(state@, slot as int),
            w as int == chars_width(b.take(i as int), font@),
            w <= i * 65535,
        decreases n - i,
    {
        let ch = state.savegamestrings[base + i];
        let cw: usize = if ch >= 128 {
            4
        } else {
            let c = toupper(ch as i32) - HU_FONTSTART;
            if c < 0 || c >= HU_FONTSIZE { 4 } else { font[c as usize] as usize }
        };
        assert(b.take(i + 1).drop_last() =~= b.take(i as int));
        assert(b.take(i + 1).last() == ch);
        w = w + cw;
        i = i + 1;
    }
    w
}

/// Moving the cursor down (or up) one item, wrapping around, skipping
/// empty lines: the new item and the number of moves, each with a sound;
/// at most one pass over the menu.
pub open spec fn nav(id: MenuId, mode: GameMode_t, ls: Seq<i16>, i: int, down: bool, fuel: nat) -> (int, nat)
    decreases fuel,
{
    let n = numitems(id, mode);
    let j = if down { if i + 1 > n - 1 { 0 } else { i + 1 } } else { if i == 0 { n - 1 } else { i - 1 } };
    if fuel <= 1 || item_at(id, j, mode, ls).status != -1 {
        (j, 1)
    } else {
        let (k, steps) = nav(id, mode, ls, j, down, (fuel - 1) as nat);
        (k, steps + 1)
    }
}

/// Moves the cursor up or down.
#[verifier::rlimit(50)]
pub fn M_MoveCursor(state: &mut MenuState, down: bool, mode: GameMode_t, actions: &mut Vec<MenuAction>)
    requires
        menu_wf(old(state)@, mode),
    ensures
        ({
            let (k, steps) = nav(old(state).current, mode, old(state)@.load_status, old(state).item_on as int, down,
                numitems(old(state).current, mode) as nat);
            &&& final(state)@ == (MenuModel { item_on: k as i16, ..old(state)@ })
            &&& final(actions)@ == old(actions)@ + Seq::new(steps, |x: int| MenuAction::StartSound(sfxenum_t::sfx_pstop))
        }),
        menu_wf(final(state)@, mode),
{
    let n = menu_numitems(state.current, mode);
    let ghost id = state.current;
    let ghost ls = state@.load_status;
    let ghost start = state.item_on as int;
    let mut fuel: i16 = n;
    let ghost mut steps: nat = 0;
    loop
        invariant_except_break
            1 <= fuel <= n,
            nav(id, mode, ls, start, down, n as nat) == ({
                let (k, s) = nav(id, mode, ls, state.item_on as int, down, fuel as nat);
                (k, s + steps)
            }),
        invariant
            menu_wf(old(state)@, mode),
            0 <= state.item_on < n,
            state@ == (MenuModel { item_on: state.item_on, ..old(state)@ }),
            id == state.current,
            ls == state@.load_status,
            n as int == numitems(id, mode),
            actions@ == old(actions)@ + Seq::new(steps, |x: int| MenuAction::StartSound(sfxenum_t::sfx_pstop)),
        ensures
            (state.item_on as int, steps) == nav(id, mode, ls, start, down, n as nat),
        decreases fuel,
    {
        if down {
            if state.item_on + 1 > n - 1 {
                state.item_on = 0;
            } else {
                state.item_on = state.item_on + 1;
            }
        } else {
            if state.item_on == 0 {
                state.item_on = n - 1;
            } else {
                state.item_on = state.item_on - 1;
            }
        }
        actions.push(MenuAction::StartSound(sfxenum_t::sfx_pstop));
        proof {
            steps = steps + 1;
            assert(actions@ =~= old(actions)@ + Seq::new(steps, |x: int| MenuAction::StartSound(sfxenum_t::sfx_pstop)));
        }
        let item = menu_item(state, state.current, state.item_on as usize, mode);
        if fuel <= 1 || item.status != -1 {
            break;
        }
        fuel = fuel - 1;
    }
}

/// Room for the counters of the input translation.
pub open spec fn input_room(m: MenuModel, ev: event_t, env: MenuEnv) -> bool {
    &&& env.time <= u64::MAX - 15
    &&& mouse_room(m, ev)
}

/// Room for the mouse motion counters.
pub open spec fn mouse_room(m: MenuModel, ev: event_t) -> bool {
    &&& i32::MIN + 30 <= m.lasty <= i32::MAX - 30
    &&& i32::MIN + 30 <= m.lastx <= i32::MAX - 30
    &&& i32::MIN <= m.mousey + ev.data3 <= i32::MAX
    &&& i32::MIN <= m.mousex + ev.data2 <= i32::MAX
}

/// Joystick input: motion becomes arrow keys, buttons enter and backspace.
#[verifier::opaque]
pub open spec fn translate_joy(m: MenuModel, ev: event_t, t: int) -> (MenuModel, int) {
    let (c1, w1) = if ev.data3 == -1 { (KEY_UPARROW as int, t + 5) } else if ev.data3 == 1 { (KEY_DOWNARROW as int, t + 5) } else { (-1int, m.joywait as int) };
    let (c2, w2) = if ev.data2 == -1 { (KEY_LEFTARROW as int, t + 2) } else if ev.data2 == 1 { (KEY_RIGHTARROW as int, t + 2) } else { (c1, w1) };
    let (c3, w3) = if ev.data1 & 1 != 0 { (KEY_ENTER as int, t + 5) } else { (c2, w2) };
    let (c4, w4) = if ev.data1 & 2 != 0 { (KEY_BACKSPACE as int, t + 5) } else { (c3, w3) };
    (MenuModel { joywait: w4 as u64, ..m }, c4)
}

/// Mouse input: motion of more than 30 units becomes arrow keys, buttons
/// enter and backspace.
#[verifier::opaque]
pub open spec fn translate_mouse(m: MenuModel, ev: event_t, t: int) -> (MenuModel, int) {
    let my = m.mousey + ev.data3;
    let (c1, w1, my1, ly1) = if my < m.lasty - 30 {
        (KEY_DOWNARROW as int, t + 5, m.lasty - 30, m.lasty - 30)
    } else if my > m.lasty + 30 {
        (KEY_UPARROW as int, t + 5, m.lasty + 30, m.lasty + 30)
    } else {
        (-1int, m.mousewait as int, my, m.lasty as int)
    };
    let mx = m.mousex + ev.data2;
    let (c2, w2, mx2, lx2) = if mx < m.lastx - 30 {
        (KEY_LEFTARROW as int, t + 5, m.lastx - 30, m.lastx - 30)
    } else if mx > m.lastx + 30 {
        (KEY_RIGHTARROW as int, t + 5, m.lastx + 30, m.lastx + 30)
    } else {
        (c1, w1, mx, m.lastx as int)
    };
    let (c3, w3) = if ev.data1 & 1 != 0 { (KEY_ENTER as int, t + 15) } else { (c2, w2) };
    let (c4, w4) = if ev.data1 & 2 != 0 { (KEY_BACKSPACE as int, t + 15) } else { (c3, w3) };
    (MenuModel { mousewait: w4 as u64, mousey: my1 as i32, lasty: ly1 as i32, mousex: mx2 as i32, lastx: lx2 as i32, ..m }, c4)
}

/// Turns an input event into a key for the menu (-1: none). Joystick and
/// mouse input is ignored for a few tics after each key it gave.
pub open spec fn translate(m: MenuModel, ev: event_t, env: MenuEnv) -> (MenuModel, int) {
    if ev.ty == evtype_t::ev_joystick && m.joywait < env.time {
        translate_joy(m, ev, env.time as int)
    } else if ev.ty == evtype_t::ev_mouse && m.mousewait < env.time {
        translate_mouse(m, ev, env.time as int)
    } else if ev.ty == evtype_t::ev_keydown {
        (m, ev.data1 as int)
    } else {
        (m, -1)
    }
}

/// Turns an input event into a key for the menu (-1: none).
fn M_TranslateEvent(state: &mut MenuState, ev: &event_t, env: MenuEnv) -> (ch: i32)
    requires
        input_room(old(state)@, *ev, env),
    ensures
        (final(state)@, ch as int) == translate(old(state)@, *ev, env),
        final(state)@ == (MenuModel {
            joywait: final(state).joywait,
            mousewait: final(state).mousewait,
            mousey: final(state).mousey,
            lasty: final(state).lasty,
            mousex: final(state).mousex,
            lastx: final(state).lastx,
            ..old(state)@
        }),
{
    if ev.ty == evtype_t::ev_joystick && state.joywait < env.time {
        translate_joystick(state, ev, env.time)
    } else if ev.ty == evtype_t::ev_mouse && state.mousewait < env.time {
        translate_mouse_event(state, ev, env.time)
    } else if ev.ty == evtype_t::ev_keydown {
        ev.data1
    } else {
        -1
    }
}

fn translate_joystick(state: &mut MenuState, ev: &event_t, t: u64) -> (ch: i32)
    requires
        t <= u64::MAX - 15,
    ensures
        (final(state)@, ch as int) == translate_joy(old(state)@, *ev, t as int),
        final(state)@ == (MenuModel { joywait: final(state).joywait, ..old(state)@ }),
{
    reveal(translate_joy);
    let mut ch: i32 = -1;
    if ev.data3 == -1 {
        ch = KEY_UPARROW;
        state.joywait = t + 5;
    } else if ev.data3 == 1 {
        ch = KEY_DOWNARROW;
        state.joywait = t + 5;
    }
    if ev.data2 == -1 {
        ch = KEY_LEFTARROW;
        state.joywait = t + 2;
    } else if ev.data2 == 1 {
        ch = KEY_RIGHTARROW;
        state.joywait = t + 2;
    }
    if ev.data1 & 1 != 0 {
        ch = KEY_ENTER;
        state.joywait = t + 5;
    }
    if ev.data1 & 2 != 0 {
        ch = KEY_BACKSPACE;
        state.joywait = t + 5;
    }
    ch
}

#[verifier::rlimit(100)]
#[verifier::spinoff_prover]
fn translate_mouse_event(state: &mut MenuState, ev: &event_t, t: u64) -> (ch: i32)
    requires
        t <= u64::MAX - 15,
        mouse_room(old(state)@, *ev),
    ensures
        (final(state)@, ch as int) == translate_mouse(old(state)@, *ev, t as int),
        final(state)@ == (MenuModel {
            mousewait: final(state).mousewait,
            mousey: final(state).mousey,
            lasty: final(state).lasty,
            mousex: final(state).mousex,
            lastx: final(state).lastx,
            ..old(state)@
        }),
{
    reveal(translate_mouse);
    let mut ch: i32 = -1;
    state.mousey = state.mousey + ev.data3;
    if state.mousey < state.lasty - 30 {
        ch = KEY_DOWNARROW;
        state.mousewait = t + 5;
        state.lasty = state.lasty - 30;
        state.mousey = state.lasty;
    } else if state.mousey > state.lasty + 30 {
        ch = KEY_UPARROW;
        state.mousewait = t + 5;
        state.lasty = state.lasty + 30;
        state.mousey = state.lasty;
    }
    state.mousex = state.mousex + ev.data2;
    if state.mousex < state.lastx - 30 {
        ch = KEY_LEFTARROW;
        state.mousewait = t + 5;
        state.lastx = state.lastx - 30;
        state.mousex = state.lastx;
    } else if state.mousex > state.lastx + 30 {
        ch = KEY_RIGHTARROW;
        state.mousewait = t + 5;
        state.lastx = state.lastx + 30;
        state.mousex = state.lastx;
    }
    if ev.data1 & 1 != 0 {
        ch = KEY_ENTER;
        state.mousewait = t + 15;
    }
    if ev.data1 & 2 != 0 {
        ch = KEY_BACKSPACE;
        state.mousewait = t + 15;
    }
    ch
}

/// The save-game descriptions with slot `k` replaced by `bytes`.
pub open spec fn set_slot(sgs: Seq<u8>, k: int, bytes: Seq<u8>) -> Seq<u8> {
    sgs.subrange(0, k * 24) + bytes + sgs.subrange(k * 24 + 24, 144)
}

/// Typing key `ch` into the description of the game being saved:
/// backspace deletes, escape restores the old description, enter saves
/// (if the description is not empty), printable characters are added in
/// upper case while they fit.
#[verifier::opaque]
pub open spec fn save_input(m: MenuModel, ch: int, font: Seq<u16>) -> Step {
    let slot = m.save_slot as int;
    let base = slot * 24;
    let idx = m.save_char_index as int;
    if ch == KEY_BACKSPACE {
        if idx > 0 {
            (MenuModel { save_char_index: (idx - 1) as usize, savegamestrings: m.savegamestrings.update(base + idx - 1, 0u8), ..m }, seq![])
        } else {
            (m, seq![])
        }
    } else if ch == KEY_ESCAPE {
        (MenuModel {
            save_string_enter: false,
            savegamestrings: set_slot(m.savegamestrings, slot, c_strcpy(slot_bytes(m, slot), m.save_old_string)),
            ..m
        }, seq![])
    } else if ch == KEY_ENTER {
        let q = MenuModel { save_string_enter: false, ..m };
        if m.savegamestrings[base] != 0 { do_save(q, slot) } else { (q, seq![]) }
    } else {
        let u = to_upper(ch);
        if u >= HU_FONTSTART && u < HU_FONTSTART + HU_FONTSIZE && 32 <= u <= 127 && idx < SAVESTRINGSIZE - 1
            && slot_width(m, slot, font) < (SAVESTRINGSIZE - 2) * 8 {
            (MenuModel {
                savegamestrings: m.savegamestrings.update(base + idx, u as u8).update(base + idx + 1, 0u8),
                save_char_index: (idx + 1) as usize,
                ..m
            }, seq![])
        } else {
            (m, seq![])
        }
    }
}

/// Save game string input.
fn M_SaveInput(state: &mut MenuState, ch: i32, font: &[u16], actions: &mut Vec<MenuAction>)
    requires
        menu_wf(old(state)@, GameMode_t::indetermined) || (old(state)@.savegamestrings.len() == 144
            && old(state)@.save_old_string.len() == 24 && old(state).save_slot < SAVESLOTS
            && old(state).save_char_index <= SAVESTRINGSIZE),
        font@.len() == HU_FONTSIZE,
    ensures
        (final(state)@, final(actions)@) == ({
            let (q, a) = save_input(old(state)@, ch as int, font@);
            (q, old(actions)@ + a)
        }),
{
    reveal(save_input);
    let slot = state.save_slot;
    let base = slot * 24;
    assert(actions@ == old(actions)@ + Seq::<MenuAction>::empty());
    if ch == KEY_BACKSPACE {
        if state.save_char_index > 0 {
            state.save_char_index = state.save_char_index - 1;
            state.savegamestrings[base + state.save_char_index] = 0;
        }
    } else if ch == KEY_ESCAPE {
        state.save_string_enter = false;
        // copy the old description back
        let old_len = old_string_len(state);
        let ghost src = state@.save_old_string;
        proof { lemma_c_strlen_bound(src); }
        let mut k: usize = 0;
        while k < 24
            invariant
                0 <= k <= 24,
                base == slot * 24,
                slot < SAVESLOTS,
                old_len as int == c_strlen(src),
                src == old(state)@.save_old_string,
                state@ == (MenuModel { savegamestrings: state@.savegamestrings, save_string_enter: false, ..old(state)@ }),
                state@.savegamestrings.len() == 144,
                forall|j: int| 0 <= j < base || base + 24 <= j < 144 ==> state@.savegamestrings[j] == old(state)@.savegamestrings[j],
                forall|j: int| base <= j < base + k ==> state@.savegamestrings[j] == c_strcpy(slot_bytes(old(state)@, slot as int), src)[j - base],
                forall|j: int| base + k <= j < base + 24 ==> state@.savegamestrings[j] == old(state)@.savegamestrings[j],
            decreases 24 - k,
        {
            if k <= old_len && k < 24 {
                state.savegamestrings[base + k] = state.save_old_string[k];
            }
            k = k + 1;
        }
        assert(state@.savegamestrings =~= set_slot(old(state)@.savegamestrings, slot as int, c_strcpy(slot_bytes(old(state)@, slot as int), src)));
    } else if ch == KEY_ENTER {
        state.save_string_enter = false;
        if state.savegamestrings[base] != 0 {
            M_DoSave(state, slot, actions);
        }
    } else {
        let u = toupper(ch);
        if u >= HU_FONTSTART && u < HU_FONTSTART + HU_FONTSIZE && 32 <= u && u <= 127
            && state.save_char_index < SAVESTRINGSIZE - 1 && M_StringWidth(state, slot, font) < (SAVESTRINGSIZE - 2) * 8 {
            state.savegamestrings[base + state.save_char_index] = u as u8;
            state.save_char_index = state.save_char_index + 1;
            state.savegamestrings[base + state.save_char_index] = 0;
        }
    }
}

/// Length of the old description kept while typing a new one.
fn old_string_len(state: &MenuState) -> (r: usize)
    requires
        state@.save_old_string.len() == 24,
    ensures
        r as int == c_strlen(state@.save_old_string),
        r <= 24,
{
    let ghost s = state@.save_old_string;
    let mut i: usize = 0;
    while i < 24
        invariant
            0 <= i <= 24,
            s == state@.save_old_string,
            s.len() == 24,
            forall|j: int| 0 <= j < i ==> s[j] != 0,
        decreases 24 - i,
    {
        if state.save_old_string[i] == 0 {
            proof { lemma_c_strlen_step(s, i as int); }
            return i;
        }
        i = i + 1;
    }
    proof { lemma_c_strlen_full(s); }
    24
}

/// A key while a message is shown: a message that needs an answer only
/// takes space, n, y and escape; the answer goes to the message's routine.
/// Returns the step and whether the key was eaten.
#[verifier::opaque]
pub open spec fn message_input(m: MenuModel, ch: int, env: MenuEnv) -> (MenuModel, Seq<MenuAction>, bool) {
    if m.message_needs_input && !(ch == 32 || ch == 110 || ch == KEY_Y || ch == KEY_ESCAPE) {
        (m, seq![], false)
    } else {
        let q = MenuModel { menuactive: m.message_last_menu_active, message_to_print: false, ..m };
        let (q2, a) = match m.message_routine {
            Some(r) => message_response(q, r, ch, env),
            None => (q, seq![]),
        };
        (MenuModel { menuactive: false, ..q2 }, a.push(MenuAction::StartSound(sfxenum_t::sfx_swtchx)), true)
    }
}

/// Takes care of any messages that need input.
fn M_MessageInput(state: &mut MenuState, ch: i32, env: MenuEnv, actions: &mut Vec<MenuAction>) -> (r: bool)
    requires
        menu_wf(old(state)@, env.gamemode),
    ensures
        ({
            let (q, a, b) = message_input(old(state)@, ch as int, env);
            final(state)@ == q && final(actions)@ == old(actions)@ + a && r == b
        }),
{
    reveal(message_input);
    if state.message_needs_input && !(ch == 32 || ch == 110 || ch == KEY_Y || ch == KEY_ESCAPE) {
        assert(actions@ == old(actions)@ + Seq::<MenuAction>::empty());
        return false;
    }
    state.menuactive = state.message_last_menu_active;
    state.message_to_print = false;
    let ghost q = state@;
    let ghost mid = actions@;
    match state.message_routine {
        Some(r) => M_MessageResponse(state, r, ch, env, actions),
        None => {
            assert(actions@ == old(actions)@ + Seq::<MenuAction>::empty());
        },
    }
    let ghost a = actions@;
    state.menuactive = false;
    actions.push(MenuAction::StartSound(sfxenum_t::sfx_swtchx));
    assert(actions@ =~= old(actions)@ + a.subrange(old(actions)@.len() as int, a.len() as int).push(MenuAction::StartSound(sfxenum_t::sfx_swtchx)));
    true
}

/// Whether `ch` is one of the keys that work without the menu up.
pub open spec fn is_fkey(ch: int) -> bool {
    ch == KEY_MINUS || ch == KEY_EQUALS || ch == KEY_F1 || ch == KEY_F2 || ch == KEY_F3 || ch == KEY_F4
        || ch == KEY_F5 || ch == KEY_F6 || ch == KEY_F7 || ch == KEY_F8 || ch == KEY_F9 || ch == KEY_F10
        || ch == KEY_F11
}

/// The function keys and the screen size keys, when the menu is not up.
#[verifier::opaque]
pub open spec fn fkey_step(m: MenuModel, ch: int, env: MenuEnv) -> (MenuModel, Seq<MenuAction>, bool) {
    let swtchn = MenuAction::StartSound(sfxenum_t::sfx_swtchn);
    if ch == KEY_MINUS || ch == KEY_EQUALS {
        // Screen size down / up
        if env.automapactive || env.chat_on {
            (m, seq![], false)
        } else {
            let (q, a) = size_display(m, if ch == KEY_MINUS { 0 } else { 1 });
            (q, a.push(MenuAction::StartSound(sfxenum_t::sfx_stnmov)), true)
        }
    } else if ch == KEY_F1 {
        // Help key
        let q = start_control_panel(m);
        (MenuModel { current: if env.gamemode == GameMode_t::retail { MenuId::ReadThis2 } else { MenuId::ReadThis1 }, item_on: 0, ..q }, seq![swtchn], true)
    } else if ch == KEY_F2 {
        // Save
        let (q, a) = save_game(start_control_panel(m), env);
        (q, seq![swtchn] + a, true)
    } else if ch == KEY_F3 {
        // Load
        let (q, a) = load_game(start_control_panel(m), env);
        (q, seq![swtchn] + a, true)
    } else if ch == KEY_F4 {
        // Sound Volume
        let q = start_control_panel(m);
        (MenuModel { current: MenuId::Sound, item_on: 0, ..q }, seq![swtchn], true)
    } else if ch == KEY_F5 {
        // Detail toggle
        (MenuModel { detail_level: (1 - m.detail_level) as i32, ..m }, seq![MenuAction::DetailNotAvailable, swtchn], true)
    } else if ch == KEY_F6 {
        // Quicksave
        let (q, a) = quick_save(m, env);
        (q, seq![swtchn] + a, true)
    } else if ch == KEY_F7 {
        // End game
        let (q, a) = end_game(m, env);
        (q, seq![swtchn] + a, true)
    } else if ch == KEY_F8 {
        // Toggle messages
        let (q, a) = change_messages(m);
        (q, a.push(swtchn), true)
    } else if ch == KEY_F9 {
        // Quickload
        (quick_load(m, env), seq![swtchn], true)
    } else if ch == KEY_F10 {
        // Quit DOOM
        (start_message(m, MenuText::Quit(quit_message_index(env) as usize), Some(MessageRoutine::QuitResponse), true), seq![swtchn], true)
    } else {
        // gamma toggle
        let g = if m.usegamma + 1 > 4 { 0 } else { m.usegamma + 1 };
        (MenuModel { usegamma: g as i32, ..m }, seq![MenuAction::PlayerMessage(Message::GAMMALVL(g as u8)), MenuAction::SetPalette], true)
    }
}

/// The function keys and the screen size keys, when the menu is not up.
#[verifier::rlimit(60)]
fn M_FunctionKey(state: &mut MenuState, ch: i32, env: MenuEnv, actions: &mut Vec<MenuAction>) -> (r: bool)
    requires
        menu_wf(old(state)@, env.gamemode),
        is_fkey(ch as int),
    ensures
        ({
            let (q, a, b) = fkey_step(old(state)@, ch as int, env);
            final(state)@ == q && final(actions)@ == old(actions)@ + a && r == b
        }),
{
    reveal(fkey_step);
    let swtchn = MenuAction::StartSound(sfxenum_t::sfx_swtchn);
    if ch == KEY_MINUS || ch == KEY_EQUALS {
        if env.automapactive || env.chat_on {
            assert(actions@ == old(actions)@ + Seq::<MenuAction>::empty());
            return false;
        }
        M_SizeDisplay(state, if ch == KEY_MINUS { 0 } else { 1 }, actions);
        let ghost a = actions@;
        actions.push(MenuAction::StartSound(sfxenum_t::sfx_stnmov));
        assert(actions@ =~= old(actions)@ + a.subrange(old(actions)@.len() as int, a.len() as int).push(MenuAction::StartSound(sfxenum_t::sfx_stnmov)));
        true
    } else if ch == KEY_F1 {
        M_StartControlPanel(state);
        state.current = if env.gamemode == GameMode_t::retail { MenuId::ReadThis2 } else { MenuId::ReadThis1 };
        state.item_on = 0;
        actions.push(swtchn);
        true
    } else if ch == KEY_F2 {
        M_StartControlPanel(state);
        actions.push(swtchn);
        let ghost mid = actions@;
        M_SaveGame(state, env, actions);
        assert(actions@ =~= old(actions)@ + (seq![swtchn] + actions@.subrange(mid.len() as int, actions@.len() as int)));
        true
    } else if ch == KEY_F3 {
        M_StartControlPanel(state);
        actions.push(swtchn);
        let ghost mid = actions@;
        M_LoadGame(state, env, actions);
        assert(actions@ =~= old(actions)@ + (seq![swtchn] + actions@.subrange(mid.len() as int, actions@.len() as int)));
        true
    } else if ch == KEY_F4 {
        M_StartControlPanel(state);
        state.current = MenuId::Sound;
        state.item_on = 0;
        actions.push(swtchn);
        true
    } else if ch == KEY_F5 {
        M_ChangeDetail(state, actions);
        actions.push(swtchn);
        assert(actions@ =~= old(actions)@ + seq![MenuAction::DetailNotAvailable, swtchn]);
        true
    } else if ch == KEY_F6 {
        actions.push(swtchn);
        let ghost mid = actions@;
        M_QuickSave(state, env, actions);
        assert(actions@ =~= old(actions)@ + (seq![swtchn] + actions@.subrange(mid.len() as int, actions@.len() as int)));
        true
    } else if ch == KEY_F7 {
        actions.push(swtchn);
        let ghost mid = actions@;
        M_EndGame(state, env, actions);
        assert(actions@ =~= old(actions)@ + (seq![swtchn] + actions@.subrange(mid.len() as int, actions@.len() as int)));
        true
    } else if ch == KEY_F8 {
        M_ChangeMessages(state, actions);
        let ghost a = actions@;
        actions.push(swtchn);
        assert(actions@ =~= old(actions)@ + a.subrange(old(actions)@.len() as int, a.len() as int).push(swtchn));
        true
    } else if ch == KEY_F9 {
        actions.push(swtchn);
        M_QuickLoad(state, env);
        true
    } else if ch == KEY_F10 {
        actions.push(swtchn);
        M_QuitDOOM(state, env);
        true
    } else {
        state.usegamma = state.usegamma + 1;
        if state.usegamma > 4 {
            state.usegamma = 0;
        }
        actions.push(MenuAction::PlayerMessage(Message::GAMMALVL(state.usegamma as u8)));
        actions.push(MenuAction::SetPalette);
        true
    }
}

/// The first item in `[from, to)` of menu `id` whose hotkey is `ch`.
pub open spec fn alpha_search(id: MenuId, mode: GameMode_t, ls: Seq<i16>, from: int, to: int, ch: int) -> Option<int>
    decreases to - from,
{
    if from >= to {
        None
    } else if item_at(id, from, mode, ls).alpha_key as int == ch {
        Some(from)
    } else {
        alpha_search(id, mode, ls, from + 1, to, ch)
    }
}

/// Finds the first item in `[from, to)` of the current menu with hotkey `ch`.
fn M_AlphaSearch(state: &MenuState, from: i16, to: i16, ch: i32, mode: GameMode_t) -> (r: Option<i16>)
    requires
        0 <= from,
        to as int <= numitems(state.current, mode),
    ensures
        r matches Some(i) ==> alpha_search(state.current, mode, state@.load_status, from as int, to as int, ch as int) == Some(i as int),
        r is None ==> alpha_search(state.current, mode, state@.load_status, from as int, to as int, ch as int) is None,
    decreases to - from,
{
    if from >= to {
        return None;
    }
    let item = menu_item(state, state.current, from as usize, mode);
    if item.alpha_key as i32 == ch {
        return Some(from);
    }
    M_AlphaSearch(state, from + 1, to, ch, mode)
}

/// The state with the current item remembered for the current menu.
pub open spec fn remember(m: MenuModel) -> MenuModel {
    MenuModel { last_on: m.last_on.update(m.current.idx(), m.item_on), ..m }
}

/// Keys usable within the menu.
#[verifier::opaque]
pub open spec fn menu_key(m: MenuModel, ch: int, env: MenuEnv) -> (MenuModel, Seq<MenuAction>, bool) {
    let mode = env.gamemode;
    let item = item_at(m.current, m.item_on as int, mode, m.load_status);
    if ch == KEY_DOWNARROW || ch == KEY_UPARROW {
        let (k, steps) = nav(m.current, mode, m.load_status, m.item_on as int, ch == KEY_DOWNARROW, numitems(m.current, mode) as nat);
        (MenuModel { item_on: k as i16, ..m }, Seq::new(steps, |x: int| MenuAction::StartSound(sfxenum_t::sfx_pstop)), true)
    } else if ch == KEY_LEFTARROW || ch == KEY_RIGHTARROW {
        match item.routine {
            Some(r) => if item.status == 2 {
                let (q, a) = routine_step(m, r, if ch == KEY_LEFTARROW { 0 } else { 1 }, env);
                (q, seq![MenuAction::StartSound(sfxenum_t::sfx_stnmov)] + a, true)
            } else {
                (m, seq![], true)
            },
            None => (m, seq![], true),
        }
    } else if ch == KEY_ENTER {
        match item.routine {
            Some(r) => if item.status >= 1 {
                let q = remember(m);
                if item.status == 2 {
                    let (q2, a) = routine_step(q, r, 1, env);
                    (q2, a.push(MenuAction::StartSound(sfxenum_t::sfx_stnmov)), true)
                } else {
                    let (q2, a) = routine_step(q, r, m.item_on as int, env);
                    (q2, a.push(MenuAction::StartSound(sfxenum_t::sfx_pistol)), true)
                }
            } else {
                (m, seq![], true)
            },
            None => (m, seq![], true),
        }
    } else if ch == KEY_ESCAPE {
        (clear_menus(remember(m)), seq![MenuAction::StartSound(sfxenum_t::sfx_swtchx)], true)
    } else if ch == KEY_BACKSPACE {
        let q = remember(m);
        match prev_menu(m.current, mode) {
            Some(p) => (setup_next(q, p), seq![MenuAction::StartSound(sfxenum_t::sfx_swtchn)], true),
            None => (q, seq![], true),
        }
    } else {
        let n = numitems(m.current, mode);
        match alpha_search(m.current, mode, m.load_status, m.item_on + 1, n, ch) {
            Some(i) => (MenuModel { item_on: i as i16, ..m }, seq![MenuAction::StartSound(sfxenum_t::sfx_pstop)], true),
            None => match alpha_search(m.current, mode, m.load_status, 0, m.item_on as int, ch) {
                Some(i) => (MenuModel { item_on: i as i16, ..m }, seq![MenuAction::StartSound(sfxenum_t::sfx_pstop)], true),
                None => (m, seq![], false),
            },
        }
    }
}

proof fn lemma_alpha_search_range(id: MenuId, mode: GameMode_t, ls: Seq<i16>, from: int, to: int, ch: int)
    ensures
        alpha_search(id, mode, ls, from, to, ch) matches Some(i) ==> from <= i < to,
    decreases to - from,
{
    if from < to {
        lemma_alpha_search_range(id, mode, ls, from + 1, to, ch);
    }
}

/// Keys usable within the menu.
fn M_MenuKey(state: &mut MenuState, ch: i32, env: MenuEnv, actions: &mut Vec<MenuAction>) -> (r: bool)
    requires
        menu_wf(old(state)@, env.gamemode),
    ensures
        ({
            let (q, a, b) = menu_key(old(state)@, ch as int, env);
            final(state)@ == q && final(actions)@ == old(actions)@ + a && r == b
        }),
{
    if ch == KEY_DOWNARROW || ch == KEY_UPARROW {
        reveal(menu_key);
        M_MoveCursor(state, ch == KEY_DOWNARROW, env.gamemode, actions);
        return true;
    }
    if ch == KEY_LEFTARROW || ch == KEY_RIGHTARROW {
        return M_MenuSlider(state, ch, env, actions);
    }
    if ch == KEY_ENTER {
        return M_MenuEnter(state, env, actions);
    }
    M_MenuOtherKey(state, ch, env, actions)
}

/// Left and right arrows: move the slider of the current item.
fn M_MenuSlider(state: &mut MenuState, ch: i32, env: MenuEnv, actions: &mut Vec<MenuAction>) -> (r: bool)
    requires
        menu_wf(old(state)@, env.gamemode),
        ch == KEY_LEFTARROW || ch == KEY_RIGHTARROW,
    ensures
        ({
            let (q, a, b) = menu_key(old(state)@, ch as int, env);
            final(state)@ == q && final(actions)@ == old(actions)@ + a && r == b
        }),
{
    reveal(menu_key);
    let mode = env.gamemode;
    let item = menu_item(state, state.current, state.item_on as usize, mode);
    proof { lemma_item_routine(state.current, state.item_on as int, mode, state@.load_status); }
    if let Some(routine) = item.routine {
        if item.status == 2 {
            actions.push(MenuAction::StartSound(sfxenum_t::sfx_stnmov));
            let ghost mid = actions@;
            M_CallRoutine(state, routine, if ch == KEY_LEFTARROW { 0 } else { 1 }, env, actions);
            assert(actions@ =~= old(actions)@ + (seq![MenuAction::StartSound(sfxenum_t::sfx_stnmov)] + actions@.subrange(mid.len() as int, actions@.len() as int)));
            return true;
        }
    }
    assert(actions@ == old(actions)@ + Seq::<MenuAction>::empty());
    true
}

/// Enter: run the routine of the current item.
fn M_MenuEnter(state: &mut MenuState, env: MenuEnv, actions: &mut Vec<MenuAction>) -> (r: bool)
    requires
        menu_wf(old(state)@, env.gamemode),
    ensures
        ({
            let (q, a, b) = menu_key(old(state)@, KEY_ENTER as int, env);
            final(state)@ == q && final(actions)@ == old(actions)@ + a && r == b
        }),
{
    reveal(menu_key);
    let mode = env.gamemode;
    let item = menu_item(state, state.current, state.item_on as usize, mode);
    proof { lemma_item_routine(state.current, state.item_on as int, mode, state@.load_status); }
    if let Some(routine) = item.routine {
        if item.status >= 1 {
            state.last_on[state.current.to_usize()] = state.item_on;
            let ghost a0 = actions@;
            if item.status == 2 {
                M_CallRoutine(state, routine, 1, env, actions); // right arrow
                let ghost a1 = actions@;
                actions.push(MenuAction::StartSound(sfxenum_t::sfx_stnmov));
                assert(actions@ =~= old(actions)@ + a1.subrange(a0.len() as int, a1.len() as int).push(MenuAction::StartSound(sfxenum_t::sfx_stnmov)));
            } else {
                let choice = state.item_on as i32;
                M_CallRoutine(state, routine, choice, env, actions);
                let ghost a1 = actions@;
                actions.push(MenuAction::StartSound(sfxenum_t::sfx_pistol));
                assert(actions@ =~= old(actions)@ + a1.subrange(a0.len() as int, a1.len() as int).push(MenuAction::StartSound(sfxenum_t::sfx_pistol)));
            }
            return true;
        }
    }
    assert(actions@ == old(actions)@ + Seq::<MenuAction>::empty());
    true
}

/// Escape, backspace and the items' hotkeys.
fn M_MenuOtherKey(state: &mut MenuState, ch: i32, env: MenuEnv, actions: &mut Vec<MenuAction>) -> (r: bool)
    requires
        menu_wf(old(state)@, env.gamemode),
        !(ch == KEY_DOWNARROW || ch == KEY_UPARROW || ch == KEY_LEFTARROW || ch == KEY_RIGHTARROW || ch == KEY_ENTER),
    ensures
        ({
            let (q, a, b) = menu_key(old(state)@, ch as int, env);
            final(state)@ == q && final(actions)@ == old(actions)@ + a && r == b
        }),
{
    reveal(menu_key);
    let mode = env.gamemode;
    if ch == KEY_ESCAPE {
        state.last_on[state.current.to_usize()] = state.item_on;
        M_ClearMenus(state);
        actions.push(MenuAction::StartSound(sfxenum_t::sfx_swtchx));
        return true;
    }
    if ch == KEY_BACKSPACE {
        state.last_on[state.current.to_usize()] = state.item_on;
        match menu_prev(state.current, mode) {
            Some(p) => {
                M_SetupNextMenu(state, p);
                actions.push(MenuAction::StartSound(sfxenum_t::sfx_swtchn));
            },
            None => {
                assert(actions@ == old(actions)@ + Seq::<MenuAction>::empty());
            },
        }
        return true;
    }
    let n = menu_numitems(state.current, mode);
    proof {
        lemma_alpha_search_range(state.current, mode, state@.load_status, state.item_on + 1, n as int, ch as int);
        lemma_alpha_search_range(state.current, mode, state@.load_status, 0, state.item_on as int, ch as int);
    }
    match M_AlphaSearch(state, state.item_on + 1, n, ch, mode) {
        Some(i) => {
            state.item_on = i;
            actions.push(MenuAction::StartSound(sfxenum_t::sfx_pstop));
            true
        },
        None => match M_AlphaSearch(state, 0, state.item_on, ch, mode) {
            Some(i) => {
                state.item_on = i;
                actions.push(MenuAction::StartSound(sfxenum_t::sfx_pstop));
                true
            },
            None => {
                assert(actions@ == old(actions)@ + Seq::<MenuAction>::empty());
                false
            },
        },
    }
}

/// Handling an input event: the new menu state, the actions to perform,
/// and whether the menu ate the event.
pub open spec fn responder(m: MenuModel, ev: event_t, env: MenuEnv, font: Seq<u16>) -> (MenuModel, Seq<MenuAction>, bool) {
    let (m1, ch) = translate(m, ev, env);
    if ch == -1 {
        (m1, seq![], false)
    } else if m1.save_string_enter {
        let (q, a) = save_input(m1, ch, font);
        (q, a, true)
    } else if m1.message_to_print {
        message_input(m1, ch, env)
    } else if env.devparm && ch == KEY_F1 {
        (m1, seq![MenuAction::ScreenShot], true)
    } else if !m1.menuactive && is_fkey(ch) {
        fkey_step(m1, ch, env)
    } else if !m1.menuactive {
        if ch == KEY_ESCAPE {
            (start_control_panel(m1), seq![MenuAction::StartSound(sfxenum_t::sfx_swtchn)], true)
        } else {
            (m1, seq![], false)
        }
    } else {
        menu_key(m1, ch, env)
    }
}

/// The menu's input handler: returns whether it ate the event; the
/// actions to perform are appended to `actions`.
pub fn M_Responder(state: &mut MenuState, ev: &event_t, env: MenuEnv, font: &[u16], actions: &mut Vec<MenuAction>) -> (r: bool)
    requires
        menu_wf(old(state)@, env.gamemode),
        input_room(old(state)@, *ev, env),
        font@.len() == HU_FONTSIZE,
    ensures
        ({
            let (q, a, b) = responder(old(state)@, *ev, env, font@);
            final(state)@ == q && final(actions)@ == old(actions)@ + a && r == b
        }),
        menu_wf(final(state)@, env.gamemode),
{
    proof { lemma_responder_wf(old(state)@, *ev, env, font@); }
    let ch = M_TranslateEvent(state, ev, env);
    assert(menu_wf(state@, env.gamemode));
    if ch == -1 {
        assert(actions@ == old(actions)@ + Seq::<MenuAction>::empty());
        return false;
    }
    // Save Game string input
    if state.save_string_enter {
        M_SaveInput(state, ch, font, actions);
        return true;
    }
    // Take care of any messages that need input
    if state.message_to_print {
        return M_MessageInput(state, ch, env, actions);
    }
    if env.devparm && ch == KEY_F1 {
        actions.push(MenuAction::ScreenShot);
        return true;
    }
    // F-Keys
    if !state.menuactive && (ch == KEY_MINUS || ch == KEY_EQUALS || ch == KEY_F1 || ch == KEY_F2 || ch == KEY_F3
        || ch == KEY_F4 || ch == KEY_F5 || ch == KEY_F6 || ch == KEY_F7 || ch == KEY_F8 || ch == KEY_F9
        || ch == KEY_F10 || ch == KEY_F11) {
        return M_FunctionKey(state, ch, env, actions);
    }
    // Pop-up menu?
    if !state.menuactive {
        if ch == KEY_ESCAPE {
            M_StartControlPanel(state);
            actions.push(MenuAction::StartSound(sfxenum_t::sfx_swtchn));
            return true;
        }
        assert(actions@ == old(actions)@ + Seq::<MenuAction>::empty());
        return false;
    }
    // Keys usable within menu
    M_MenuKey(state, ch, env, actions)
}

/// The remembered item of every menu lies inside that menu.
proof fn lemma_last_on_valid(m: MenuModel, id: MenuId, mode: GameMode_t)
    requires
        menu_wf(m, mode),
    ensures
        0 <= m.last_on[id.idx()] < numitems(id, mode),
{
}

proof fn lemma_setup_next_wf(m: MenuModel, id: MenuId, mode: GameMode_t)
    requires
        menu_wf(m, mode),
    ensures
        menu_wf(setup_next(m, id), mode),
{
    lemma_last_on_valid(m, id, mode);
}

proof fn lemma_remember_wf(m: MenuModel, mode: GameMode_t)
    requires
        menu_wf(m, mode),
    ensures
        menu_wf(remember(m), mode),
{
    let q = remember(m);
    assert forall|k: int| 0 <= k < 9 implies 0 <= #[trigger] q.last_on[k] by {}
    assert(q.last_on[m.current.idx()] == m.item_on);
}

proof fn lemma_nav_range(id: MenuId, mode: GameMode_t, ls: Seq<i16>, i: int, down: bool, fuel: nat)
    requires
        0 <= i < numitems(id, mode),
    ensures
        0 <= nav(id, mode, ls, i, down, fuel).0 < numitems(id, mode),
    decreases fuel,
{
    let n = numitems(id, mode);
    let j = if down { if i + 1 > n - 1 { 0 } else { i + 1 } } else { if i == 0 { n - 1 } else { i - 1 } };
    if !(fuel <= 1 || item_at(id, j, mode, ls).status != -1) {
        lemma_nav_range(id, mode, ls, j, down, (fuel - 1) as nat);
    }
}

/// Every menu routine keeps the menu state consistent.
pub proof fn lemma_routine_step_wf(m: MenuModel, r: MenuRoutine, choice: int, env: MenuEnv)
    requires
        menu_wf(m, env.gamemode),
        routine_choice_ok(r, choice),
    ensures
        menu_wf(routine_step(m, r, choice, env).0, env.gamemode),
{
    let mode = env.gamemode;
    reveal(routine_step);
    match r {
        MenuRoutine::NewGame => {
            reveal(new_game);
            lemma_setup_next_wf(m, MenuId::NewGame, mode);
            lemma_setup_next_wf(m, MenuId::Episode, mode);
        },
        MenuRoutine::Options => lemma_setup_next_wf(m, MenuId::Options, mode),
        MenuRoutine::LoadGame => {
            reveal(load_game);
            lemma_setup_next_wf(m, MenuId::Load, mode);
        },
        MenuRoutine::SaveGame => {
            reveal(save_game);
            lemma_setup_next_wf(m, MenuId::Save, mode);
        },
        MenuRoutine::ReadThis => lemma_setup_next_wf(m, MenuId::ReadThis1, mode),
        MenuRoutine::QuitDoom => {},
        MenuRoutine::Episode => {
            reveal(episode);
            if !(mode == GameMode_t::shareware && choice != 0) {
                let c = if mode == GameMode_t::registered && choice > 2 { 0int } else { choice };
                lemma_setup_next_wf(MenuModel { epi: c as usize, ..m }, MenuId::NewGame, mode);
            } else {
                lemma_setup_next_wf(start_message(m, MenuText::SWSTRING, None, false), MenuId::ReadThis1, mode);
            }
        },
        MenuRoutine::ChooseSkill => reveal(choose_skill),
        MenuRoutine::EndGame => reveal(end_game),
        MenuRoutine::ChangeMessages => reveal(change_messages),
        MenuRoutine::ChangeDetail => {},
        MenuRoutine::SizeDisplay => reveal(size_display),
        MenuRoutine::ChangeSensitivity => reveal(change_sensitivity),
        MenuRoutine::Sound => lemma_setup_next_wf(m, MenuId::Sound, mode),
        MenuRoutine::ReadThis2 => lemma_setup_next_wf(m, MenuId::ReadThis2, mode),
        MenuRoutine::FinishReadThis => lemma_setup_next_wf(m, MenuId::Main, mode),
        MenuRoutine::SfxVol => {},
        MenuRoutine::MusicVol => {},
        MenuRoutine::LoadSelect => {},
        MenuRoutine::SaveSelect => {
            reveal(save_select);
            let old_slot = slot_bytes(m, choice);
            let cleared = if is_empty_slot(old_slot) { m.savegamestrings.update(choice * 24, 0u8) } else { m.savegamestrings };
            let q = MenuModel {
                save_string_enter: true,
                save_slot: choice as usize,
                save_old_string: c_strcpy(m.save_old_string, old_slot),
                savegamestrings: cleared,
                ..m
            };
            lemma_c_strlen_bound(slot_bytes(q, choice));
        },
    }
}

/// Answering a message keeps the menu state consistent.
pub proof fn lemma_message_response_wf(m: MenuModel, r: MessageRoutine, ch: int, env: MenuEnv)
    requires
        menu_wf(m, env.gamemode),
        r == MessageRoutine::QuickSaveResponse ==> 0 <= m.quick_save_slot,
    ensures
        menu_wf(message_response(m, r, ch, env).0, env.gamemode),
{
    reveal(message_response);
    reveal(do_save);
    lemma_remember_wf(m, env.gamemode);
}

proof fn lemma_translate_wf(m: MenuModel, ev: event_t, env: MenuEnv)
    requires
        menu_wf(m, env.gamemode),
    ensures
        menu_wf(translate(m, ev, env).0, env.gamemode),
{
    reveal(translate_joy);
    reveal(translate_mouse);
}

proof fn lemma_save_input_wf(m: MenuModel, ch: int, font: Seq<u16>, mode: GameMode_t)
    requires
        menu_wf(m, mode),
    ensures
        menu_wf(save_input(m, ch, font).0, mode),
{
    reveal(save_input);
    reveal(do_save);
}

proof fn lemma_message_input_wf(m: MenuModel, ch: int, env: MenuEnv)
    requires
        menu_wf(m, env.gamemode),
    ensures
        menu_wf(message_input(m, ch, env).0, env.gamemode),
{
    reveal(message_input);
    let q = MenuModel { menuactive: m.message_last_menu_active, message_to_print: false, ..m };
    if let Some(r) = m.message_routine {
        lemma_message_response_wf(q, r, ch, env);
    }
}

proof fn lemma_fkey_wf(m: MenuModel, ch: int, env: MenuEnv)
    requires
        menu_wf(m, env.gamemode),
    ensures
        menu_wf(fkey_step(m, ch, env).0, env.gamemode),
{
    let mode = env.gamemode;
    reveal(fkey_step);
    let q = start_control_panel(m);
    if ch == KEY_MINUS || ch == KEY_EQUALS {
        reveal(size_display);
    } else if ch == KEY_F1 {
    } else if ch == KEY_F2 {
        reveal(save_game);
        lemma_setup_next_wf(q, MenuId::Save, mode);
    } else if ch == KEY_F3 {
        reveal(load_game);
        lemma_setup_next_wf(q, MenuId::Load, mode);
    } else if ch == KEY_F4 {
    } else if ch == KEY_F5 {
    } else if ch == KEY_F6 {
        reveal(quick_save);
        lemma_setup_next_wf(q, MenuId::Save, mode);
    } else if ch == KEY_F7 {
        reveal(end_game);
    } else if ch == KEY_F8 {
        reveal(change_messages);
    } else if ch == KEY_F9 {
        reveal(quick_load);
    } else if ch == KEY_F10 {
    } else {
    }
}

proof fn lemma_menu_key_wf(m: MenuModel, ch: int, env: MenuEnv)
    requires
        menu_wf(m, env.gamemode),
    ensures
        menu_wf(menu_key(m, ch, env).0, env.gamemode),
{
    let mode = env.gamemode;
    reveal(menu_key);
    let item = item_at(m.current, m.item_on as int, mode, m.load_status);
    lemma_item_routine(m.current, m.item_on as int, mode, m.load_status);
    if ch == KEY_DOWNARROW || ch == KEY_UPARROW {
        lemma_nav_range(m.current, mode, m.load_status, m.item_on as int, ch == KEY_DOWNARROW, numitems(m.current, mode) as nat);
    } else if ch == KEY_LEFTARROW || ch == KEY_RIGHTARROW {
        if let Some(r) = item.routine {
            if item.status == 2 {
                lemma_routine_step_wf(m, r, if ch == KEY_LEFTARROW { 0 } else { 1 }, env);
            }
        }
    } else if ch == KEY_ENTER {
        if let Some(r) = item.routine {
            if item.status >= 1 {
                lemma_remember_wf(m, mode);
                if item.status == 2 {
                    lemma_routine_step_wf(remember(m), r, 1, env);
                } else {
                    lemma_routine_step_wf(remember(m), r, m.item_on as int, env);
                }
            }
        }
    } else if ch == KEY_ESCAPE {
        lemma_remember_wf(m, mode);
    } else if ch == KEY_BACKSPACE {
        lemma_remember_wf(m, mode);
        if let Some(p) = prev_menu(m.current, mode) {
            lemma_setup_next_wf(remember(m), p, mode);
        }
    } else {
        let n = numitems(m.current, mode);
        lemma_alpha_search_range(m.current, mode, m.load_status, m.item_on + 1, n, ch);
        lemma_alpha_search_range(m.current, mode, m.load_status, 0, m.item_on as int, ch);
    }
}

/// Law: handling any input event keeps the menu state consistent: the
/// cursor stays on an item of the current menu, the remembered items and
/// the settings stay in their ranges.
pub proof fn lemma_responder_wf(m: MenuModel, ev: event_t, env: MenuEnv, font: Seq<u16>)
    requires
        menu_wf(m, env.gamemode),
    ensures
        menu_wf(responder(m, ev, env, font).0, env.gamemode),
{
    let (m1, ch) = translate(m, ev, env);
    lemma_translate_wf(m, ev, env);
    if ch == -1 {
    } else if m1.save_string_enter {
        lemma_save_input_wf(m1, ch, font, env.gamemode);
    } else if m1.message_to_print {
        lemma_message_input_wf(m1, ch, env);
    } else if env.devparm && ch == KEY_F1 {
    } else if !m1.menuactive && is_fkey(ch) {
        lemma_fkey_wf(m1, ch, env);
    } else if !m1.menuactive {
    } else {
        lemma_menu_key_wf(m1, ch, env);
    }
}

/// The description read from a save file (`None`: no such file) stored
/// in save slot `slot`: a missing file shows "empty slot" and cannot be
/// loaded.
pub open spec fn set_save_string(m: MenuModel, slot: int, desc: Option<Seq<u8>>) -> MenuModel {
    match desc {
        None => MenuModel {
            savegamestrings: set_slot(m.savegamestrings, slot, c_strcpy(slot_bytes(m, slot), empty_string().push(0u8))),
            load_status: m.load_status.update(slot, 0),
            ..m
        },
        Some(d) => MenuModel {
            savegamestrings: set_slot(m.savegamestrings, slot, d),
            load_status: m.load_status.update(slot, 1),
            ..m
        },
    }
}

/// Stores the description read from the save file of slot `slot`.
pub fn M_SetSaveString(state: &mut MenuState, slot: usize, desc: Option<[u8; 24]>)
    requires
        menu_wf(old(state)@, GameMode_t::indetermined) || old(state)@.savegamestrings.len() == 144,
        old(state)@.load_status.len() == 6,
        slot < SAVESLOTS,
    ensures
        final(state)@ == set_save_string(old(state)@, slot as int, match desc { None => None, Some(d) => Some(d@) }),
{
    let base = slot * 24;
    let src: [u8; 24] = match desc {
        None => [101, 109, 112, 116, 121, 32, 115, 108, 111, 116, 0, 0, 0, 0, 0, 0, 0, 0, 0, 0, 0, 0, 0, 0],
        Some(d) => d,
    };
    let ghost srcv = match desc { None => empty_string().push(0u8), Some(d) => d@ };
    let n: usize = match desc { None => 10, Some(_) => 23 };
    proof {
        if desc is None {
            assert(src@.subrange(0, 11) =~= srcv);
            assert(c_strlen(srcv) == 10) by {
                reveal_with_fuel(c_strlen, 12);
            }
        }
    }
    let mut k: usize = 0;
    while k < 24
        invariant
            0 <= k <= 24,
            base == slot * 24,
            slot < SAVESLOTS,
            state@ == (MenuModel { savegamestrings: state@.savegamestrings, ..old(state)@ }),
            state@.savegamestrings.len() == 144,
            desc is None ==> n == 10 && c_strlen(srcv) == 10 && srcv.len() == 11 && src@.subrange(0, 11) == srcv,
            desc is Some ==> n == 23 && srcv == src@,
            forall|j: int| 0 <= j < base || base + 24 <= j < 144 ==> state@.savegamestrings[j] == old(state)@.savegamestrings[j],
            forall|j: int| base <= j < base + k ==> state@.savegamestrings[j] == (match desc {
                None => c_strcpy(slot_bytes(old(state)@, slot as int), srcv),
                Some(_) => srcv,
            })[j - base],
            forall|j: int| base + k <= j < base + 24 ==> state@.savegamestrings[j] == old(state)@.savegamestrings[j],
        decreases 24 - k,
    {
        if k <= n {
            state.savegamestrings[base + k] = src[k];
        }
        k = k + 1;
    }
    let ghost bytes = match desc { None => c_strcpy(slot_bytes(old(state)@, slot as int), srcv), Some(_) => srcv };
    assert(state@.savegamestrings =~= set_slot(old(state)@.savegamestrings, slot as int, bytes));
    state.load_status[slot] = match desc { None => 0, Some(_) => 1 };
}

} // verus!
