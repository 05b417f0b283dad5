//! Key and button state snapshots. The X server reports the keyboard as a
//! 256-bit keymap (one bit per keycode) and the pointer buttons as a mask; the
//! hotkey listener and the pickers read them as a table indexed by virtual-key
//! code, in which the generic modifier codes mirror their left and right keys.
use vstd::prelude::*;

use crate::keysym::{keysym_to_vk, vk_of_keysym, KeySym};
use crate::vkcodes::{
    VK_CONTROL, VK_LBUTTON, VK_LCONTROL, VK_LMENU, VK_LSHIFT, VK_LWIN, VK_MBUTTON, VK_MENU,
    VK_RBUTTON, VK_RCONTROL, VK_RMENU, VK_RSHIFT, VK_RWIN, VK_SHIFT,
};

verus! {

/// Pointer mask bit of the left button (`X.h`).
pub const Button1Mask: u32 = 0x100;

/// Pointer mask bit of the middle button.
pub const Button2Mask: u32 = 0x200;

/// Pointer mask bit of the right button.
pub const Button3Mask: u32 = 0x400;

/// Number of slots in a key-state table: one per virtual-key code below 256.
pub const KEY_STATE_SLOTS: usize = 256;

/// Lowest keycode the X server hands out.
pub const MIN_KEYCODE: u8 = 8;

/// The keymap bit of `keycode` is set: bit `keycode % 8` of byte `keycode / 8`.
pub open spec fn key_down(keymap: Seq<u8>, keycode: int) -> bool {
    keymap[keycode / 8] & (1u8 << ((keycode % 8) as u8)) != 0
}

/// Reads the bit of `keycode` in an X keymap.
pub fn keymap_bit(keymap: &[u8; 32], keycode: u32) -> (b: bool)
    requires
        keycode < 256,
    ensures
        b == key_down(keymap@, keycode as int),
{
    let idx = keycode as usize;
    proof {
        assert(idx >> 3usize == idx / 8) by (bit_vector);
        assert(idx & 7usize == idx % 8) by (bit_vector);
    }
    let byte = keymap[idx >> 3];
    byte & (1u8 << ((idx & 7) as u8)) != 0
}

/// The keymap is read bit by bit, least significant bit first: keycode `k` is
/// bit `k % 8` of byte `k / 8`, so keycodes 0 to 7 are the bits of the first
/// byte from its lowest to its highest, and so on.
pub proof fn lemma_keymap_bits(keymap: Seq<u8>, k: int)
    requires
        0 <= k < 256,
    ensures
        key_down(keymap, k) == ((keymap[k / 8] >> ((k % 8) as u8)) & 1u8 == 1u8),
{
    let b = keymap[k / 8];
    let n = (k % 8) as u8;
    assert(n < 8);
    assert((b & (1u8 << n) != 0) == ((b >> n) & 1u8 == 1u8)) by (bit_vector)
        requires
            n < 8,
    ;
}

/// Whether a key is down in `keymap`, given the keycode its virtual key is bound
/// to (`None` when the key has no keycode on this keyboard).
pub fn is_vk_pressed(keymap: &[u8; 32], keycode: Option<u32>) -> (b: bool)
    requires
        keycode matches Some(k) ==> k < 256,
    ensures
        b == (keycode matches Some(k) && key_down(keymap@, k as int)),
{
    match keycode {
        Some(k) => keymap_bit(keymap, k),
        None => false,
    }
}

/// Whether either Alt key is down, given the keycodes of the left and right Alt keys.
pub fn alt_down(keymap: &[u8; 32], lmenu_keycode: Option<u32>, rmenu_keycode: Option<u32>) -> (b:
    bool)
    requires
        lmenu_keycode matches Some(k) ==> k < 256,
        rmenu_keycode matches Some(k) ==> k < 256,
    ensures
        b == ((lmenu_keycode matches Some(k) && key_down(keymap@, k as int)) || (
        rmenu_keycode matches Some(k) && key_down(keymap@, k as int))),
{
    is_vk_pressed(keymap, lmenu_keycode) || is_vk_pressed(keymap, rmenu_keycode)
}

/// The keycodes from `MIN_KEYCODE` to 255 whose bit is set in `keymap`, in
/// increasing order.
pub fn pressed_keycodes(keymap: &[u8; 32]) -> (codes: Vec<u8>)
    ensures
        forall|i: int, j: int| 0 <= i < j < codes@.len() ==> codes@[i] < codes@[j],
        forall|i: int|
            0 <= i < codes@.len() ==> MIN_KEYCODE <= #[trigger] codes@[i] && key_down(
                keymap@,
                codes@[i] as int,
            ),
        forall|k: u8| MIN_KEYCODE <= k && key_down(keymap@, k as int) ==> codes@.contains(k),
{
    let mut codes: Vec<u8> = Vec::new();
    let mut keycode: u32 = MIN_KEYCODE as u32;
    while keycode < 256
        invariant
            MIN_KEYCODE <= keycode <= 256,
            forall|i: int, j: int| 0 <= i < j < codes@.len() ==> codes@[i] < codes@[j],
            forall|i: int|
                0 <= i < codes@.len() ==> MIN_KEYCODE <= #[trigger] codes@[i] < keycode
                    && key_down(keymap@, codes@[i] as int),
            forall|k: u8|
                MIN_KEYCODE <= k < keycode && key_down(keymap@, k as int) ==> codes@.contains(k),
        decreases 256 - keycode,
    {
        if keymap_bit(keymap, keycode) {
            let ghost before = codes@;
            codes.push(keycode as u8);
            proof {
                assert forall|k: u8|
                    MIN_KEYCODE <= k < keycode + 1 && key_down(
                        keymap@,
                        k as int,
                    ) implies codes@.contains(k) by {
                    if k < keycode {
                        let w = choose|w: int| 0 <= w < before.len() && before[w] == k;
                        assert(codes@[w] == k);
                    } else {
                        assert(codes@[codes@.len() - 1] == k);
                    }
                }
            }
        }
        keycode = keycode + 1;
    }
    codes
}

/// The virtual keys of a list of keysyms, in order of first occurrence: keysyms
/// without a virtual key are left out, and each key is listed once.
pub open spec fn collected_vks(keysyms: Seq<KeySym>) -> Seq<u16>
    decreases keysyms.len(),
{
    if keysyms.len() == 0 {
        Seq::empty()
    } else {
        let earlier = collected_vks(keysyms.drop_last());
        let vk = vk_of_keysym(keysyms.last());
        if vk != 0 && !earlier.contains(vk) {
            earlier.push(vk)
        } else {
            earlier
        }
    }
}

fn contains_vk(vks: &Vec<u16>, vk: u16) -> (b: bool)
    ensures
        b == vks@.contains(vk),
{
    let mut i: usize = 0;
    while i < vks.len()
        invariant
            i <= vks@.len(),
            forall|j: int| 0 <= j < i ==> vks@[j] != vk,
        decreases vks@.len() - i,
    {
        if vks[i] == vk {
            return true;
        }
        i = i + 1;
    }
    false
}

/// Turns the keysyms of the pressed keys into the snapshot of pressed virtual keys.
pub fn vks_from_keysyms(keysyms: &Vec<KeySym>) -> (vks: Vec<u16>)
    ensures
        vks@ == collected_vks(keysyms@),
{
    let mut vks: Vec<u16> = Vec::new();
    let mut i: usize = 0;
    while i < keysyms.len()
        invariant
            i <= keysyms@.len(),
            vks@ == collected_vks(keysyms@.take(i as int)),
        decreases keysyms@.len() - i,
    {
        let vk = keysym_to_vk(keysyms[i]);
        assert(keysyms@.take(i + 1).drop_last() == keysyms@.take(i as int));
        if vk != 0 && !contains_vk(&vks, vk) {
            vks.push(vk);
        }
        i = i + 1;
    }
    assert(keysyms@.take(keysyms@.len() as int) == keysyms@);
    vks
}

/// A key snapshot names no key twice and never the empty code `0`, and it names
/// exactly the virtual keys of the given keysyms.
pub proof fn lemma_collected_vks_distinct(keysyms: Seq<KeySym>)
    ensures
        forall|i: int, j: int|
            0 <= i < j < collected_vks(keysyms).len() ==> collected_vks(keysyms)[i]
                != collected_vks(keysyms)[j],
        forall|i: int| 0 <= i < collected_vks(keysyms).len() ==> collected_vks(keysyms)[i] != 0,
        forall|vk: u16|
            vk != 0 ==> (collected_vks(keysyms).contains(vk) <==> exists|k: int|
                0 <= k < keysyms.len() && vk_of_keysym(keysyms[k]) == vk),
    decreases keysyms.len(),
{
    if keysyms.len() > 0 {
        let rest = keysyms.drop_last();
        lemma_collected_vks_distinct(rest);
        let earlier = collected_vks(rest);
        let all = collected_vks(keysyms);
        assert forall|vk: u16| vk != 0 implies (all.contains(vk) <==> exists|k: int|
            0 <= k < keysyms.len() && vk_of_keysym(keysyms[k]) == vk) by {
            if all.contains(vk) {
                if earlier.contains(vk) {
                    let k = choose|k: int| 0 <= k < rest.len() && vk_of_keysym(rest[k]) == vk;
                    assert(keysyms[k] == rest[k]);
                } else {
                    let w = choose|w: int| 0 <= w < all.len() && all[w] == vk;
                    assert(vk_of_keysym(keysyms[keysyms.len() - 1]) == vk);
                }
            }
            if exists|k: int| 0 <= k < keysyms.len() && vk_of_keysym(keysyms[k]) == vk {
                let k = choose|k: int| 0 <= k < keysyms.len() && vk_of_keysym(keysyms[k]) == vk;
                if k < keysyms.len() - 1 {
                    assert(rest[k] == keysyms[k]);
                    assert(0 <= k < rest.len() && vk_of_keysym(rest[k]) == vk);
                    assert(earlier.contains(vk));
                    let w = choose|w: int| 0 <= w < earlier.len() && earlier[w] == vk;
                    assert(all[w] == vk);
                } else if !earlier.contains(vk) {
                    assert(all[all.len() - 1] == vk);
                } else {
                    let w = choose|w: int| 0 <= w < earlier.len() && earlier[w] == vk;
                    assert(all[w] == vk);
                }
            }
        }
    }
}

/// The value of slot `vk` in the key-state table: the pointer buttons come from
/// the button mask, the generic Shift, Control and Alt codes are down when
/// either of their sides is, and every other key is down when it is in the
/// pressed-key snapshot.
pub open spec fn slot_state(pressed: Seq<u16>, mask: u32, vk: int) -> bool {
    if vk == VK_LBUTTON {
        mask & Button1Mask != 0
    } else if vk == VK_MBUTTON {
        mask & Button2Mask != 0
    } else if vk == VK_RBUTTON {
        mask & Button3Mask != 0
    } else if vk == VK_SHIFT {
        pressed.contains(VK_LSHIFT) || pressed.contains(VK_RSHIFT)
    } else if vk == VK_CONTROL {
        pressed.contains(VK_LCONTROL) || pressed.contains(VK_RCONTROL)
    } else if vk == VK_MENU {
        pressed.contains(VK_LMENU) || pressed.contains(VK_RMENU)
    } else {
        pressed.contains(vk as u16)
    }
}

/// The whole key-state table for a pressed-key snapshot and a button mask.
pub open spec fn physical_state(pressed: Seq<u16>, mask: u32) -> Seq<bool> {
    Seq::new(KEY_STATE_SLOTS as nat, |vk: int| slot_state(pressed, mask, vk))
}

/// Clears every slot of the key-state table and fills it from a pressed-key
/// snapshot and a pointer button mask.
pub fn reset_and_fill_storage(storage: &mut Vec<bool>, pressed: &Vec<u16>, mask: u32)
    requires
        old(storage)@.len() == KEY_STATE_SLOTS,
    ensures
        final(storage)@ == physical_state(pressed@, mask),
{
    let mut i: usize = 0;
    while i < KEY_STATE_SLOTS
        invariant
            i <= KEY_STATE_SLOTS,
            storage@.len() == KEY_STATE_SLOTS,
            forall|j: int| 0 <= j < i ==> !storage@[j],
        decreases KEY_STATE_SLOTS - i,
    {
        storage.set(i, false);
        i = i + 1;
    }
    let mut p: usize = 0;
    while p < pressed.len()
        invariant
            p <= pressed@.len(),
            storage@.len() == KEY_STATE_SLOTS,
            forall|j: int|
                0 <= j < KEY_STATE_SLOTS ==> storage@[j] == pressed@.take(p as int).contains(
                    j as u16,
                ),
        decreases pressed@.len() - p,
    {
        let vk = pressed[p];
        let ghost before = storage@;
        if (vk as usize) < KEY_STATE_SLOTS {
            storage.set(vk as usize, true);
        }
        proof {
            assert forall|j: int| 0 <= j < KEY_STATE_SLOTS implies storage@[j]
                == pressed@.take(p + 1).contains(j as u16) by {
                let prefix = pressed@.take(p as int);
                let next = pressed@.take(p + 1);
                assert(next == prefix.push(vk));
                if prefix.contains(j as u16) {
                    let w = choose|w: int| 0 <= w < prefix.len() && prefix[w] == j as u16;
                    assert(next[w] == j as u16);
                }
                if next.contains(j as u16) && !prefix.contains(j as u16) {
                    let w = choose|w: int| 0 <= w < next.len() && next[w] == j as u16;
                    if w < prefix.len() {
                        assert(prefix[w] == j as u16);
                    }
                }
                if j == vk as int {
                    assert(next[p as int] == vk);
                }
            }
        }
        p = p + 1;
    }
    assert(pressed@.take(pressed@.len() as int) == pressed@);
    storage.set(VK_LBUTTON as usize, mask & Button1Mask != 0);
    storage.set(VK_MBUTTON as usize, mask & Button2Mask != 0);
    storage.set(VK_RBUTTON as usize, mask & Button3Mask != 0);
    let shift = storage[VK_LSHIFT as usize] || storage[VK_RSHIFT as usize];
    let ctrl = storage[VK_LCONTROL as usize] || storage[VK_RCONTROL as usize];
    let alt = storage[VK_LMENU as usize] || storage[VK_RMENU as usize];
    storage.set(VK_SHIFT as usize, shift);
    storage.set(VK_CONTROL as usize, ctrl);
    storage.set(VK_MENU as usize, alt);
    assert(storage@ == physical_state(pressed@, mask));
}

/// Refreshes the shared key-state table when the display is connected; a poll
/// clears every slot first, so keys released since the last poll read as up.
/// Without a connection the table is left as it is.
pub fn refresh_physical_state(
    storage: &mut Vec<bool>,
    connected: bool,
    pressed: &Vec<u16>,
    mask: u32,
)
    requires
        old(storage)@.len() == KEY_STATE_SLOTS,
    ensures
        connected ==> final(storage)@ == physical_state(pressed@, mask),
        !connected ==> final(storage)@ == old(storage)@,
{
    if connected {
        reset_and_fill_storage(storage, pressed, mask);
    }
}

/// The pointer buttons are read from the button mask, each from its own bit:
/// the left-button slot is set exactly when bit 8 (`Button1Mask`) is, the
/// middle-button slot bit 9 (`Button2Mask`) and the right-button slot bit 10
/// (`Button3Mask`), whatever keys are pressed.
pub proof fn lemma_pointer_buttons(pressed: Seq<u16>, mask: u32)
    ensures
        Button1Mask == 1u32 << 8u32 && Button2Mask == 1u32 << 9u32 && Button3Mask == 1u32 << 10u32,
        physical_state(pressed, mask)[VK_LBUTTON as int] == (mask & 0x100 != 0),
        physical_state(pressed, mask)[VK_MBUTTON as int] == (mask & 0x200 != 0),
        physical_state(pressed, mask)[VK_RBUTTON as int] == (mask & 0x400 != 0),
        physical_state(pressed, mask)[VK_LBUTTON as int] == (mask & Button1Mask != 0),
        physical_state(pressed, mask)[VK_MBUTTON as int] == (mask & Button2Mask != 0),
        physical_state(pressed, mask)[VK_RBUTTON as int] == (mask & Button3Mask != 0),
{
    assert(1u32 << 8u32 == 0x100 && 1u32 << 9u32 == 0x200 && 1u32 << 10u32 == 0x400) by (bit_vector);
}

/// The generic modifier codes mirror their sides: generic Shift is down exactly
/// when left or right Shift is, and likewise for Control and Alt.
pub proof fn lemma_modifier_aliases(pressed: Seq<u16>, mask: u32)
    ensures
        physical_state(pressed, mask)[VK_SHIFT as int] == (physical_state(
            pressed,
            mask,
        )[VK_LSHIFT as int] || physical_state(pressed, mask)[VK_RSHIFT as int]),
        physical_state(pressed, mask)[VK_CONTROL as int] == (physical_state(
            pressed,
            mask,
        )[VK_LCONTROL as int] || physical_state(pressed, mask)[VK_RCONTROL as int]),
        physical_state(pressed, mask)[VK_MENU as int] == (physical_state(
            pressed,
            mask,
        )[VK_LMENU as int] || physical_state(pressed, mask)[VK_RMENU as int]),
{
}

/// A refresh forgets keys that were released: a key that is neither a pointer
/// button nor a generic modifier reads as down exactly when it is in the
/// current snapshot, whatever the table held before.
pub proof fn lemma_released_keys_read_up(pressed: Seq<u16>, mask: u32, vk: u16)
    requires
        (vk as int) < KEY_STATE_SLOTS,
        vk != VK_LBUTTON && vk != VK_MBUTTON && vk != VK_RBUTTON,
        vk != VK_SHIFT && vk != VK_CONTROL && vk != VK_MENU,
    ensures
        physical_state(pressed, mask)[vk as int] == pressed.contains(vk),
{
}

/// The Windows keys have no generic code: each side is reported on its own.
pub proof fn lemma_windows_keys_by_side(pressed: Seq<u16>, mask: u32)
    ensures
        physical_state(pressed, mask)[VK_LWIN as int] == pressed.contains(VK_LWIN),
        physical_state(pressed, mask)[VK_RWIN as int] == pressed.contains(VK_RWIN),
{
}

/// Caps Lock is on when bit 0 of the keyboard's LED mask is set.
pub fn caps_lock_enabled(led_mask: i32) -> (on: bool)
    ensures
        on == (led_mask & 1 != 0),
{
    led_mask & 1 != 0
}

} // verus!
