use lib::menu::{
    KEY_DOWNARROW, KEY_ENTER, KEY_ESCAPE, M_FinishReadThis, M_Init, M_Options, M_ReadThis,
    M_ReadThis2, M_Responder, M_Sound, MenuAction, MenuEnv, MenuId, event_t, evtype_t,
};
use lib::player::GameMode_t;
use lib::sounds::sfxenum_t;

fn env() -> MenuEnv {
    MenuEnv {
        gamemode: GameMode_t::registered,
        netgame: false,
        demoplayback: false,
        usergame: false,
        in_level: false,
        devparm: false,
        automapactive: false,
        chat_on: false,
        gametic: 0,
        english: true,
        time: 100,
    }
}

fn key(k: i32) -> event_t {
    event_t { ty: evtype_t::ev_keydown, data1: k, data2: 0, data3: 0 }
}

#[test]
fn escape_opens_the_menu() {
    let mut m = M_Init(10, 0, 1, 5, 8, 8, 0, GameMode_t::registered);
    assert!(!m.menuactive);
    let font = vec![8u16; 63];
    let mut actions = Vec::new();
    assert!(M_Responder(&mut m, &key(KEY_ESCAPE), env(), &font, &mut actions));
    assert!(m.menuactive);
    assert_eq!(m.current, MenuId::Main);
    assert_eq!(actions, vec![MenuAction::StartSound(sfxenum_t::sfx_swtchn)]);
    // down moves the skull to the next item
    let mut actions = Vec::new();
    assert!(M_Responder(&mut m, &key(KEY_DOWNARROW), env(), &font, &mut actions));
    assert_eq!(m.item_on, 1);
    assert_eq!(actions, vec![MenuAction::StartSound(sfxenum_t::sfx_pstop)]);
    // enter on "Options" opens the options menu
    let mut actions = Vec::new();
    assert!(M_Responder(&mut m, &key(KEY_ENTER), env(), &font, &mut actions));
    assert_eq!(m.current, MenuId::Options);
}

#[test]
fn help_screens_chain() {
    let mut m = M_Init(10, 0, 1, 5, 8, 8, 0, GameMode_t::registered);
    M_ReadThis(&mut m, 0);
    assert_eq!(m.current, MenuId::ReadThis1);
    M_ReadThis2(&mut m, 0);
    assert_eq!(m.current, MenuId::ReadThis2);
    M_FinishReadThis(&mut m, 0);
    assert_eq!(m.current, MenuId::Main);
    M_Options(&mut m, 0);
    assert_eq!(m.current, MenuId::Options);
    M_Sound(&mut m, 0);
    assert_eq!(m.current, MenuId::Sound);
}

#[test]
fn settings_are_kept_as_read() {
    let m = M_Init(12, 0, 1, 5, 20, 8, 0, GameMode_t::registered);
    assert_eq!(m.screenblocks, 12);
    assert_eq!(m.screen_size, 9);
    assert_eq!(m.sfx_volume, 20);
    let m = M_Init(3, 1, 0, 9, -1, 15, 4, GameMode_t::registered);
    assert_eq!((m.screen_size, m.detail_level, m.music_volume), (0, 1, 15));
}
