use lib::channels::{S_SetMusicVolume, S_SetSfxVolume, S_StopChannel, S_StopSound, S_getChannel, channel_t};

fn free() -> channel_t {
    channel_t { sfx: None, origin: None, handle: 0 }
}

fn playing(sfx: usize, origin: Option<usize>, handle: i32) -> channel_t {
    channel_t { sfx: Some(sfx), origin, handle }
}

#[test]
fn stopping_a_channel_frees_it() {
    let mut channels = vec![playing(3, Some(7), 40), free()];
    let mut usefulness = vec![0, 0, 0, 5];
    assert_eq!(S_StopChannel(&mut channels, &mut usefulness, 0), Some(40));
    assert_eq!(channels[0], channel_t { sfx: None, origin: Some(7), handle: 40 });
    assert_eq!(usefulness[3], 4);
    assert_eq!(S_StopChannel(&mut channels, &mut usefulness, 1), None);
    assert_eq!(usefulness, vec![0, 0, 0, 4]);
}

#[test]
fn stop_sound_of_a_thing() {
    let mut channels = vec![playing(1, Some(2), 10), playing(2, Some(9), 11), playing(1, Some(9), 12)];
    let mut usefulness = vec![0, 3, 3];
    assert_eq!(S_StopSound(&mut channels, &mut usefulness, Some(9)), Some(11));
    assert_eq!(channels[1].sfx, None);
    assert_eq!(channels[2].sfx, Some(1));
    assert_eq!(usefulness, vec![0, 3, 2]);
    assert_eq!(S_StopSound(&mut channels, &mut usefulness, Some(5)), None);
    assert_eq!(S_StopSound(&mut channels, &mut usefulness, None), None);
}

#[test]
fn a_new_sound_takes_the_first_open_channel() {
    let mut channels = vec![playing(1, Some(2), 10), free(), free()];
    let mut usefulness = vec![0, 3, 3];
    assert_eq!(S_getChannel(&mut channels, &mut usefulness, &vec![64, 64, 64], Some(4), 2), (1, None));
    assert_eq!(channels[1], channel_t { sfx: Some(2), origin: Some(4), handle: 0 });
    // the same thing again: its own channel is stopped and reused
    assert_eq!(S_getChannel(&mut channels, &mut usefulness, &vec![64, 64, 64], Some(2), 2), (0, Some(10)));
    assert_eq!(channels[0], channel_t { sfx: Some(2), origin: Some(2), handle: 10 });
    assert_eq!(usefulness, vec![0, 2, 3]);
}

#[test]
fn a_full_channel_set_drops_a_less_important_sound() {
    // priority values: a greater value is a less important sound
    let priorities = vec![60, 100, 70, 50];
    let mut channels = vec![playing(1, Some(2), 10), playing(2, None, 11)];
    let mut usefulness = vec![0, 3, 5, 0];
    assert_eq!(S_getChannel(&mut channels, &mut usefulness, &priorities, None, 2), (0, Some(10)));
    assert_eq!(channels[0], channel_t { sfx: Some(2), origin: None, handle: 10 });
    assert_eq!(usefulness, vec![0, 2, 5, 0]);
    // an equal priority value is given up too
    assert_eq!(S_getChannel(&mut channels, &mut usefulness, &priorities, Some(8), 2), (0, Some(10)));
    assert_eq!(usefulness, vec![0, 2, 4, 0]);
}

#[test]
fn a_sound_less_important_than_all_playing_is_refused() {
    let priorities = vec![60, 100, 70, 50];
    let mut channels = vec![playing(0, Some(2), 10), playing(3, None, 11)];
    let mut usefulness = vec![4, 3, 5, 6];
    let before = channels.clone();
    assert_eq!(S_getChannel(&mut channels, &mut usefulness, &priorities, None, 2), (-1, None));
    assert_eq!(channels, before);
    assert_eq!(usefulness, vec![4, 3, 5, 6]);
    let mut none: Vec<channel_t> = Vec::new();
    assert_eq!(S_getChannel(&mut none, &mut usefulness, &priorities, Some(1), 0), (-1, None));
}

#[test]
fn volumes_are_checked() {
    let mut v = 15;
    assert!(S_SetSfxVolume(&mut v, 127));
    assert_eq!(v, 127);
    assert!(!S_SetSfxVolume(&mut v, 128));
    assert!(!S_SetSfxVolume(&mut v, -1));
    assert_eq!(v, 127);
    let mut m = 15;
    assert!(S_SetMusicVolume(&mut m, 0));
    assert_eq!(m, 0);
    assert!(!S_SetMusicVolume(&mut m, 200));
    assert_eq!(m, 0);
}

use lib::channels::S_AdjustSoundParams;

const F: i32 = 65536;

fn sine_table() -> Vec<i32> {
    (0..8192).map(|i| i * 8).collect()
}

#[test]
fn sounds_fade_with_distance() {
    let table = sine_table();
    let (mut vol, mut sep) = (-1, -1);
    assert!(S_AdjustSoundParams(0, 0, 0, 100 * F, 0, 0, 1, 15, &table, &mut vol, &mut sep));
    assert_eq!((vol, sep), (15, 33));
    assert!(S_AdjustSoundParams(0, 0, 0, 600 * F, 0, 0x40000000, 1, 15, &table, &mut vol, &mut sep));
    assert_eq!((vol, sep), (8, 104));
    assert!(!S_AdjustSoundParams(0, 0, 0, 1199 * F, 0, 0x40000000, 1, 15, &table, &mut vol, &mut sep));
    assert_eq!(vol, 0);
    let (mut vol, mut sep) = (-1, -1);
    assert!(!S_AdjustSoundParams(0, 0, 0, 2000 * F, 0, 0, 1, 15, &table, &mut vol, &mut sep));
    assert_eq!((vol, sep), (-1, -1));
}

#[test]
fn boss_maps_hear_everything() {
    let table = sine_table();
    let (mut vol, mut sep) = (-1, -1);
    assert!(S_AdjustSoundParams(0, 0, 0, 2000 * F, 0, 0x40000000, 8, 15, &table, &mut vol, &mut sep));
    assert_eq!((vol, sep), (15, 104));
    assert!(S_AdjustSoundParams(0, 0, 0, 600 * F, 0, 0x40000000, 8, 8, &table, &mut vol, &mut sep));
    assert_eq!(vol, 11);
}
