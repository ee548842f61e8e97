use desktoprecorder::hotkey::{
    grab_modifiers, ignorable_lock_mods, keycode_count, keycode_for_keysym, numlock_mod_mask,
    KEYSYM_NUM_LOCK, KEYSYM_R, MOD_CONTROL_ALT, MOD_LOCK,
};

#[test]
fn keycodes_are_found_at_any_shift_level() {
    // Keycodes from eight on, with two keysyms each.
    let keysyms = vec![0x61, 0x41, 0x52, KEYSYM_R, KEYSYM_NUM_LOCK, 0];
    assert_eq!(keycode_for_keysym(8, 2, &keysyms, 0x41), Some(8));
    assert_eq!(keycode_for_keysym(8, 2, &keysyms, KEYSYM_R), Some(9));
    assert_eq!(keycode_for_keysym(8, 2, &keysyms, KEYSYM_NUM_LOCK), Some(10));
    assert_eq!(keycode_for_keysym(8, 2, &keysyms, 0x7a), None);
    assert_eq!(keycode_for_keysym(8, 0, &keysyms, KEYSYM_R), None);
    assert_eq!(keycode_count(8, 255), 248);
}

#[test]
fn numlock_is_where_the_modifier_map_has_it() {
    let mut keycodes = vec![0u8; 16];
    keycodes[9] = 77;
    assert_eq!(numlock_mod_mask(Some(77), 2, &keycodes), Some(16));
    keycodes[15] = 78;
    assert_eq!(numlock_mod_mask(Some(78), 2, &keycodes), Some(128));
    assert_eq!(numlock_mod_mask(Some(79), 2, &keycodes), None);
    assert_eq!(numlock_mod_mask(None, 2, &keycodes), None);
    assert_eq!(numlock_mod_mask(Some(77), 0, &keycodes), None);
}

#[test]
fn the_hotkey_is_grabbed_for_every_lock_state() {
    assert_eq!(ignorable_lock_mods(Some(16)), [0, 2, 16, 18]);
    assert_eq!(ignorable_lock_mods(None), [0, 2]);
    let masks = grab_modifiers(Some(16));
    for held in [0, MOD_LOCK, 16, MOD_LOCK | 16] {
        assert!(masks.contains(&(MOD_CONTROL_ALT | held)));
    }
    assert_eq!(grab_modifiers(None), [12, 14]);
}
