use blur_auto_clicker::keystate::{
    alt_down, caps_lock_enabled, is_vk_pressed, keymap_bit, pressed_keycodes,
    refresh_physical_state, reset_and_fill_storage, vks_from_keysyms, Button1Mask, Button2Mask,
    Button3Mask,
};
use blur_auto_clicker::keysym::{
    keysym_to_vk, vk_to_keysym, XK_Alt_L, XK_Escape, XK_F1, XK_F24, XK_Help, XK_KP_0, XK_KP_Enter,
    XK_Meta_L, XK_Shift_L, XK_Super_L, XK_less, XK_space,
};
use blur_auto_clicker::vkcodes::{
    VK_0, VK_A, VK_APPS, VK_CONTROL, VK_ESCAPE, VK_F1, VK_F24, VK_HELP, VK_LBUTTON, VK_LCONTROL,
    VK_LMENU, VK_LSHIFT, VK_LWIN, VK_MBUTTON, VK_MENU, VK_NUMPAD0, VK_NUMPAD9, VK_OEM_102,
    VK_OEM_8, VK_RBUTTON, VK_RMENU, VK_RSHIFT, VK_SHIFT, VK_SPACE, VK_Z,
};

#[test]
fn letters_register_lowercase_keysyms() {
    assert_eq!(vk_to_keysym(VK_A), 0x61);
    assert_eq!(vk_to_keysym(VK_Z), 0x7a);
    assert_eq!(keysym_to_vk(0x61), VK_A);
    assert_eq!(keysym_to_vk(0x41), VK_A);
    assert_eq!(keysym_to_vk(0x7a), VK_Z);
}

#[test]
fn digits_function_and_keypad_keys() {
    assert_eq!(vk_to_keysym(VK_0), 0x30);
    assert_eq!(keysym_to_vk(0x39), 0x39);
    assert_eq!(vk_to_keysym(VK_F1), XK_F1);
    assert_eq!(vk_to_keysym(VK_F24), XK_F24);
    assert_eq!(keysym_to_vk(XK_F1 + 11), VK_F1 + 11);
    assert_eq!(vk_to_keysym(VK_NUMPAD0), XK_KP_0);
    assert_eq!(vk_to_keysym(VK_NUMPAD9), XK_KP_0 + 9);
    assert_eq!(keysym_to_vk(XK_KP_0 + 5), VK_NUMPAD0 + 5);
}

#[test]
fn named_keys_and_modifiers() {
    assert_eq!(vk_to_keysym(VK_SPACE), XK_space);
    assert_eq!(vk_to_keysym(VK_ESCAPE), XK_Escape);
    assert_eq!(keysym_to_vk(XK_Escape), VK_ESCAPE);
    assert_eq!(vk_to_keysym(VK_SHIFT), XK_Shift_L);
    assert_eq!(keysym_to_vk(XK_Shift_L), VK_LSHIFT);
    assert_eq!(vk_to_keysym(VK_MENU), XK_Alt_L);
    assert_eq!(keysym_to_vk(XK_Alt_L), VK_LMENU);
    assert_eq!(keysym_to_vk(XK_Meta_L), VK_LWIN);
    assert_eq!(keysym_to_vk(XK_Super_L), VK_LWIN);
    assert_eq!(keysym_to_vk(XK_KP_Enter), 0x0D);
    assert_eq!(vk_to_keysym(VK_OEM_102), XK_less);
    assert_eq!(keysym_to_vk(XK_less), VK_OEM_8);
    assert_eq!(vk_to_keysym(VK_APPS), 0xff67);
}

#[test]
fn unknown_codes_map_to_zero() {
    assert_eq!(vk_to_keysym(0x07), 0);
    assert_eq!(vk_to_keysym(0xFF), 0);
    assert_eq!(keysym_to_vk(0x1234), 0);
    assert_eq!(keysym_to_vk(0), 0);
}

#[test]
fn round_trip_except_help() {
    for vk in 0u16..=0xff {
        let ks = vk_to_keysym(vk);
        if ks != 0 && vk != VK_HELP {
            let canonical = match vk {
                VK_SHIFT => VK_LSHIFT,
                VK_CONTROL => VK_LCONTROL,
                VK_MENU => VK_LMENU,
                VK_OEM_102 => VK_OEM_8,
                other => other,
            };
            assert_eq!(keysym_to_vk(ks), canonical, "vk {:#x}", vk);
        }
    }
    assert_eq!(vk_to_keysym(VK_HELP), XK_Help);
    assert_eq!(keysym_to_vk(XK_Help), 0);
}

fn keymap_with(codes: &[u32]) -> [u8; 32] {
    let mut k = [0u8; 32];
    for &c in codes {
        k[(c / 8) as usize] |= 1 << (c % 8);
    }
    k
}

#[test]
fn keymap_bits() {
    let k = keymap_with(&[9, 64, 255]);
    assert!(keymap_bit(&k, 9));
    assert!(keymap_bit(&k, 64));
    assert!(keymap_bit(&k, 255));
    assert!(!keymap_bit(&k, 10));
    assert!(!keymap_bit(&k, 0));
    assert!(is_vk_pressed(&k, Some(64)));
    assert!(!is_vk_pressed(&k, None));
    assert!(alt_down(&k, Some(10), Some(64)));
    assert!(alt_down(&k, Some(64), None));
    assert!(!alt_down(&k, Some(10), None));
}

#[test]
fn pressed_keycodes_in_order_from_eight() {
    let k = keymap_with(&[3, 7, 8, 200, 9, 255]);
    assert_eq!(pressed_keycodes(&k), vec![8, 9, 200, 255]);
    assert!(pressed_keycodes(&[0u8; 32]).is_empty());
}

#[test]
fn snapshot_skips_unknown_and_duplicates() {
    let syms = vec![0x61, 0x1234, 0x41, XK_Escape, 0x61, XK_Shift_L];
    assert_eq!(vks_from_keysyms(&syms), vec![VK_A, VK_ESCAPE, VK_LSHIFT]);
}

#[test]
fn fill_mirrors_modifiers_and_buttons() {
    let mut storage = vec![true; 256];
    let pressed = vec![VK_RSHIFT, VK_A, VK_LBUTTON, VK_RMENU, 300];
    reset_and_fill_storage(&mut storage, &pressed, Button2Mask);
    assert!(storage[VK_RSHIFT as usize]);
    assert!(storage[VK_SHIFT as usize]);
    assert!(!storage[VK_CONTROL as usize]);
    assert!(storage[VK_MENU as usize]);
    assert!(storage[VK_A as usize]);
    assert!(!storage[VK_LBUTTON as usize], "buttons come from the mask");
    assert!(storage[VK_MBUTTON as usize]);
    assert!(!storage[VK_RBUTTON as usize]);
    assert!(!storage[VK_LWIN as usize]);
    assert!(!storage[VK_Z as usize], "released keys read as up");
    assert_eq!(storage.iter().filter(|&&b| b).count(), 6);
}

#[test]
fn refresh_only_when_connected() {
    let mut storage = vec![true; 256];
    refresh_physical_state(&mut storage, false, &vec![], Button1Mask | Button3Mask);
    assert!(storage.iter().all(|&b| b));
    refresh_physical_state(&mut storage, true, &vec![], Button1Mask | Button3Mask);
    assert!(storage[VK_LBUTTON as usize]);
    assert!(storage[VK_RBUTTON as usize]);
    assert_eq!(storage.iter().filter(|&&b| b).count(), 2);
}

#[test]
fn caps_lock_led() {
    assert!(caps_lock_enabled(1));
    assert!(caps_lock_enabled(3));
    assert!(!caps_lock_enabled(2));
    assert!(caps_lock_enabled(-1));
}
