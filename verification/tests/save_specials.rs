use lib::archive::{END_SPECIALS, P_ArchiveSpecials, P_UnArchiveSpecials, Special, thinker_t, write_specials};
use lib::ceilings::ceiling_t;
use lib::doors::vldoor_t;
use lib::fixed::FRACUNIT;
use lib::floors::{floor_e, floormove_t};
use lib::lights::{glow_t, lightflash_t, strobe_t};
use lib::movers::{ceiling_e, plat_e, plattype_e, vldoor_e};
use lib::plats::plat_t;

fn specials() -> Vec<Special> {
    vec![
        Special::Ceiling(ceiling_t {
            ty: ceiling_e::crushAndRaise,
            sector: 3,
            bottomheight: 8 * FRACUNIT,
            topheight: 64 * FRACUNIT,
            speed: FRACUNIT,
            crush: true,
            direction: -1,
            tag: 5,
            olddirection: 0,
        }),
        Special::Door(vldoor_t { ty: vldoor_e::normal, sector: 1, topheight: 100 * FRACUNIT, speed: 2 * FRACUNIT, direction: 0, topwait: 150, topcountdown: 20 }),
        Special::Floor(floormove_t {
            ty: floor_e::lowerAndChange,
            crush: false,
            sector: 2,
            direction: -1,
            newspecial: 9,
            texture: -3,
            floordestheight: -16 * FRACUNIT,
            speed: FRACUNIT,
        }),
        Special::Plat(plat_t {
            ty: plattype_e::perpetualRaise,
            sector: 4,
            speed: FRACUNIT,
            low: 0,
            high: 32 * FRACUNIT,
            wait: 105,
            count: 7,
            status: plat_e::in_stasis,
            oldstatus: plat_e::up,
            crush: false,
            tag: 6,
        }),
        Special::Flash(lightflash_t { sector: 0, count: 3, maxlight: 200, minlight: 100, maxtime: 64, mintime: 7 }),
        Special::Strobe(strobe_t { sector: 5, count: 1, minlight: 10, maxlight: 160, darktime: 35, brighttime: 5 }),
        Special::Glow(glow_t { sector: 6, minlight: 96, maxlight: 192, direction: 1 }),
    ]
}

#[test]
fn specials_come_back_as_saved() {
    let s = specials();
    let running: Vec<thinker_t> = s.iter().map(|&special| thinker_t { special, active: true }).collect();
    let w = P_ArchiveSpecials(&running, &vec![None; 30]);
    assert_eq!(w.len(), 12 * 7 + 12);
    assert_eq!(&w[0..4], &[0, 3, 3, 8 * FRACUNIT]);
    assert_eq!(w[84], END_SPECIALS);
    let back = P_UnArchiveSpecials(&w).unwrap();
    assert_eq!(format!("{:?}", back), format!("{:?}", s));
    assert_eq!(P_UnArchiveSpecials(&write_specials(&vec![])).unwrap().len(), 0);
}

#[test]
fn broken_streams_are_refused() {
    let w = write_specials(&specials());
    // cut before the closing record
    assert!(P_UnArchiveSpecials(&w[..84]).is_none());
    // an unknown kind of special
    let mut bad = w.clone();
    bad[12] = 9;
    assert!(P_UnArchiveSpecials(&bad).is_none());
    // a flag that is neither 0 nor 1
    let mut bad = w.clone();
    bad[6] = 2;
    assert!(P_UnArchiveSpecials(&bad).is_none());
}

#[test]
fn only_running_thinkers_and_listed_ceilings_are_saved() {
    let s = specials();
    let thinkers = vec![
        // a ceiling in stasis, listed in the active table: saved
        thinker_t { special: s[0], active: false },
        // a stopped platform: not saved
        thinker_t { special: s[3], active: false },
        // a ceiling in stasis that the table does not list: not saved
        thinker_t { special: s[0], active: false },
        thinker_t { special: s[6], active: true },
    ];
    let mut table = vec![None; 30];
    table[4] = Some(0);
    let w = P_ArchiveSpecials(&thinkers, &table);
    assert_eq!(w.len(), 12 * 2 + 12);
    let back = P_UnArchiveSpecials(&w).unwrap();
    assert_eq!(format!("{:?}", back), format!("{:?}", vec![s[0], s[6]]));
}
