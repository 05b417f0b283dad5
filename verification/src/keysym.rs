//! Mapping between Windows virtual-key codes and X11 keysyms (`keysymdef.h`).
//! Letter keys are registered by their lowercase keysym, the physical key at
//! level 0; generic modifier codes map to the left-hand keysym.
use vstd::prelude::*;

use crate::vkcodes::{VK_A, VK_ADD, VK_APPS, VK_BACK, VK_CAPITAL, VK_CONTROL, VK_DECIMAL, VK_DELETE, VK_DIVIDE, VK_DOWN, VK_END, VK_ESCAPE, VK_F1, VK_F24, VK_HELP, VK_HOME, VK_INSERT, VK_LCONTROL, VK_LEFT, VK_LMENU, VK_LSHIFT, VK_LWIN, VK_MENU, VK_MULTIPLY, VK_NEXT, VK_NUMLOCK, VK_NUMPAD0, VK_NUMPAD9, VK_OEM_1, VK_OEM_102, VK_OEM_2, VK_OEM_3, VK_OEM_4, VK_OEM_5, VK_OEM_6, VK_OEM_7, VK_OEM_8, VK_OEM_COMMA, VK_OEM_MINUS, VK_OEM_PERIOD, VK_OEM_PLUS, VK_PAUSE, VK_PRIOR, VK_RCONTROL, VK_RETURN, VK_RIGHT, VK_RMENU, VK_RSHIFT, VK_RWIN, VK_SCROLL, VK_SHIFT, VK_SNAPSHOT, VK_SPACE, VK_SUBTRACT, VK_TAB, VK_UP, VK_Z};

verus! {

/// An X11 keysym.
pub type KeySym = u64;

pub const XK_space: KeySym = 0x0020;
pub const XK_BackSpace: KeySym = 0xff08;
pub const XK_Tab: KeySym = 0xff09;
pub const XK_Return: KeySym = 0xff0d;
pub const XK_Escape: KeySym = 0xff1b;
pub const XK_Pause: KeySym = 0xff13;
pub const XK_Scroll_Lock: KeySym = 0xff14;
pub const XK_Caps_Lock: KeySym = 0xffe5;
pub const XK_Num_Lock: KeySym = 0xff7f;
pub const XK_Home: KeySym = 0xff50;
pub const XK_Left: KeySym = 0xff51;
pub const XK_Up: KeySym = 0xff52;
pub const XK_Right: KeySym = 0xff53;
pub const XK_Down: KeySym = 0xff54;
pub const XK_Prior: KeySym = 0xff55;
pub const XK_Next: KeySym = 0xff56;
pub const XK_End: KeySym = 0xff57;
pub const XK_Insert: KeySym = 0xff63;
pub const XK_Delete: KeySym = 0xffff;
pub const XK_Print: KeySym = 0xff61;
pub const XK_Menu: KeySym = 0xff67;
pub const XK_Help: KeySym = 0xff6a;
pub const XK_KP_Enter: KeySym = 0xff8d;
pub const XK_KP_Multiply: KeySym = 0xffaa;
pub const XK_KP_Add: KeySym = 0xffab;
pub const XK_KP_Subtract: KeySym = 0xffad;
pub const XK_KP_Decimal: KeySym = 0xffae;
pub const XK_KP_Divide: KeySym = 0xffaf;
pub const XK_KP_0: KeySym = 0xffb0;
pub const XK_KP_9: KeySym = 0xffb9;
pub const XK_F1: KeySym = 0xffbe;
pub const XK_F24: KeySym = 0xffd5;
pub const XK_Shift_L: KeySym = 0xffe1;
pub const XK_Shift_R: KeySym = 0xffe2;
pub const XK_Control_L: KeySym = 0xffe3;
pub const XK_Control_R: KeySym = 0xffe4;
pub const XK_Meta_L: KeySym = 0xffe7;
pub const XK_Meta_R: KeySym = 0xffe8;
pub const XK_Alt_L: KeySym = 0xffe9;
pub const XK_Alt_R: KeySym = 0xffea;
pub const XK_Super_L: KeySym = 0xffeb;
pub const XK_Super_R: KeySym = 0xffec;
pub const XK_less: KeySym = 0x3c;

/// The keysym a virtual-key code is registered under; `0` for a code with no keysym.
pub open spec fn keysym_of_vk(vk: u16) -> KeySym {
    if 0x30 <= vk <= 0x39 {
        vk as KeySym
    } else if VK_A <= vk <= VK_Z {
        (vk + 0x20) as KeySym
    } else if vk == VK_SPACE {
        XK_space
    } else if vk == VK_BACK {
        XK_BackSpace
    } else if vk == VK_TAB {
        XK_Tab
    } else if vk == VK_RETURN {
        XK_Return
    } else if vk == VK_ESCAPE {
        XK_Escape
    } else if vk == VK_PAUSE {
        XK_Pause
    } else if vk == VK_SCROLL {
        XK_Scroll_Lock
    } else if vk == VK_CAPITAL {
        XK_Caps_Lock
    } else if vk == VK_NUMLOCK {
        XK_Num_Lock
    } else if vk == VK_HOME {
        XK_Home
    } else if vk == VK_END {
        XK_End
    } else if vk == VK_LEFT {
        XK_Left
    } else if vk == VK_UP {
        XK_Up
    } else if vk == VK_RIGHT {
        XK_Right
    } else if vk == VK_DOWN {
        XK_Down
    } else if vk == VK_PRIOR {
        XK_Prior
    } else if vk == VK_NEXT {
        XK_Next
    } else if vk == VK_INSERT {
        XK_Insert
    } else if vk == VK_DELETE {
        XK_Delete
    } else if vk == VK_SNAPSHOT {
        XK_Print
    } else if vk == VK_APPS {
        XK_Menu
    } else if vk == VK_HELP {
        XK_Help
    } else if VK_NUMPAD0 <= vk <= VK_NUMPAD9 {
        (XK_KP_0 + (vk - VK_NUMPAD0)) as KeySym
    } else if vk == VK_MULTIPLY {
        XK_KP_Multiply
    } else if vk == VK_ADD {
        XK_KP_Add
    } else if vk == VK_SUBTRACT {
        XK_KP_Subtract
    } else if vk == VK_DECIMAL {
        XK_KP_Decimal
    } else if vk == VK_DIVIDE {
        XK_KP_Divide
    } else if VK_F1 <= vk <= VK_F24 {
        (XK_F1 + (vk - VK_F1)) as KeySym
    } else if vk == VK_SHIFT || vk == VK_LSHIFT {
        XK_Shift_L
    } else if vk == VK_RSHIFT {
        XK_Shift_R
    } else if vk == VK_CONTROL || vk == VK_LCONTROL {
        XK_Control_L
    } else if vk == VK_RCONTROL {
        XK_Control_R
    } else if vk == VK_MENU || vk == VK_LMENU {
        XK_Alt_L
    } else if vk == VK_RMENU {
        XK_Alt_R
    } else if vk == VK_LWIN {
        XK_Super_L
    } else if vk == VK_RWIN {
        XK_Super_R
    } else if vk == VK_OEM_1 {
        0x3b
    } else if vk == VK_OEM_PLUS {
        0x3d
    } else if vk == VK_OEM_COMMA {
        0x2c
    } else if vk == VK_OEM_MINUS {
        0x2d
    } else if vk == VK_OEM_PERIOD {
        0x2e
    } else if vk == VK_OEM_2 {
        0x2f
    } else if vk == VK_OEM_3 {
        0x60
    } else if vk == VK_OEM_4 {
        0x5b
    } else if vk == VK_OEM_5 {
        0x5c
    } else if vk == VK_OEM_6 {
        0x5d
    } else if vk == VK_OEM_7 {
        0x27
    } else if vk == VK_OEM_8 || vk == VK_OEM_102 {
        XK_less
    } else {
        0
    }
}

/// The virtual-key code of a keysym; `0` for a keysym with no virtual-key code.
/// Both letter cases give the letter's code, and the keypad Enter key is Return.
pub open spec fn vk_of_keysym(keysym: KeySym) -> u16 {
    if 0x41 <= keysym <= 0x5a {
        keysym as u16
    } else if 0x61 <= keysym <= 0x7a {
        (keysym - 0x20) as u16
    } else if 0x30 <= keysym <= 0x39 {
        keysym as u16
    } else if XK_F1 <= keysym <= XK_F24 {
        (VK_F1 + (keysym - XK_F1)) as u16
    } else if XK_KP_0 <= keysym <= XK_KP_9 {
        (VK_NUMPAD0 + (keysym - XK_KP_0)) as u16
    } else if keysym == XK_space {
        VK_SPACE
    } else if keysym == XK_BackSpace {
        VK_BACK
    } else if keysym == XK_Tab {
        VK_TAB
    } else if keysym == XK_Return {
        VK_RETURN
    } else if keysym == XK_Escape {
        VK_ESCAPE
    } else if keysym == XK_Pause {
        VK_PAUSE
    } else if keysym == XK_Scroll_Lock {
        VK_SCROLL
    } else if keysym == XK_Caps_Lock {
        VK_CAPITAL
    } else if keysym == XK_Num_Lock {
        VK_NUMLOCK
    } else if keysym == XK_Home {
        VK_HOME
    } else if keysym == XK_End {
        VK_END
    } else if keysym == XK_Left {
        VK_LEFT
    } else if keysym == XK_Up {
        VK_UP
    } else if keysym == XK_Right {
        VK_RIGHT
    } else if keysym == XK_Down {
        VK_DOWN
    } else if keysym == XK_Prior {
        VK_PRIOR
    } else if keysym == XK_Next {
        VK_NEXT
    } else if keysym == XK_Insert {
        VK_INSERT
    } else if keysym == XK_Delete {
        VK_DELETE
    } else if keysym == XK_Print {
        VK_SNAPSHOT
    } else if keysym == XK_Menu {
        VK_APPS
    } else if keysym == XK_KP_Enter {
        VK_RETURN
    } else if keysym == XK_KP_Multiply {
        VK_MULTIPLY
    } else if keysym == XK_KP_Add {
        VK_ADD
    } else if keysym == XK_KP_Subtract {
        VK_SUBTRACT
    } else if keysym == XK_KP_Decimal {
        VK_DECIMAL
    } else if keysym == XK_KP_Divide {
        VK_DIVIDE
    } else if keysym == XK_Shift_L {
        VK_LSHIFT
    } else if keysym == XK_Shift_R {
        VK_RSHIFT
    } else if keysym == XK_Control_L {
        VK_LCONTROL
    } else if keysym == XK_Control_R {
        VK_RCONTROL
    } else if keysym == XK_Alt_L {
        VK_LMENU
    } else if keysym == XK_Alt_R {
        VK_RMENU
    } else if keysym == XK_Super_L || keysym == XK_Meta_L {
        VK_LWIN
    } else if keysym == XK_Super_R || keysym == XK_Meta_R {
        VK_RWIN
    } else if keysym == 0x3b {
        VK_OEM_1
    } else if keysym == 0x3d {
        VK_OEM_PLUS
    } else if keysym == 0x2c {
        VK_OEM_COMMA
    } else if keysym == 0x2d {
        VK_OEM_MINUS
    } else if keysym == 0x2e {
        VK_OEM_PERIOD
    } else if keysym == 0x2f {
        VK_OEM_2
    } else if keysym == 0x60 {
        VK_OEM_3
    } else if keysym == 0x5b {
        VK_OEM_4
    } else if keysym == 0x5c {
        VK_OEM_5
    } else if keysym == 0x5d {
        VK_OEM_6
    } else if keysym == 0x27 {
        VK_OEM_7
    } else if keysym == XK_less {
        VK_OEM_8
    } else {
        0
    }
}

/// Maps a virtual-key code to the keysym of the physical key it names.
pub fn vk_to_keysym(vk: u16) -> (k: KeySym)
    ensures
        k == keysym_of_vk(vk),
{
    proof {
        assert(VK_A <= vk <= VK_Z ==> vk | 0x20 == vk + 0x20) by (bit_vector);
    }
    if 0x30 <= vk && vk <= 0x39 {
        vk as KeySym
    } else if VK_A <= vk && vk <= VK_Z {
        (vk | 0x20) as KeySym
    } else if vk == VK_SPACE {
        XK_space
    } else if vk == VK_BACK {
        XK_BackSpace
    } else if vk == VK_TAB {
        XK_Tab
    } else if vk == VK_RETURN {
        XK_Return
    } else if vk == VK_ESCAPE {
        XK_Escape
    } else if vk == VK_PAUSE {
        XK_Pause
    } else if vk == VK_SCROLL {
        XK_Scroll_Lock
    } else if vk == VK_CAPITAL {
        XK_Caps_Lock
    } else if vk == VK_NUMLOCK {
        XK_Num_Lock
    } else if vk == VK_HOME {
        XK_Home
    } else if vk == VK_END {
        XK_End
    } else if vk == VK_LEFT {
        XK_Left
    } else if vk == VK_UP {
        XK_Up
    } else if vk == VK_RIGHT {
        XK_Right
    } else if vk == VK_DOWN {
        XK_Down
    } else if vk == VK_PRIOR {
        XK_Prior
    } else if vk == VK_NEXT {
        XK_Next
    } else if vk == VK_INSERT {
        XK_Insert
    } else if vk == VK_DELETE {
        XK_Delete
    } else if vk == VK_SNAPSHOT {
        XK_Print
    } else if vk == VK_APPS {
        XK_Menu
    } else if vk == VK_HELP {
        XK_Help
    } else if VK_NUMPAD0 <= vk && vk <= VK_NUMPAD9 {
        XK_KP_0 + (vk - VK_NUMPAD0) as KeySym
    } else if vk == VK_MULTIPLY {
        XK_KP_Multiply
    } else if vk == VK_ADD {
        XK_KP_Add
    } else if vk == VK_SUBTRACT {
        XK_KP_Subtract
    } else if vk == VK_DECIMAL {
        XK_KP_Decimal
    } else if vk == VK_DIVIDE {
        XK_KP_Divide
    } else if VK_F1 <= vk && vk <= VK_F24 {
        XK_F1 + (vk - VK_F1) as KeySym
    } else if vk == VK_SHIFT || vk == VK_LSHIFT {
        XK_Shift_L
    } else if vk == VK_RSHIFT {
        XK_Shift_R
    } else if vk == VK_CONTROL || vk == VK_LCONTROL {
        XK_Control_L
    } else if vk == VK_RCONTROL {
        XK_Control_R
    } else if vk == VK_MENU || vk == VK_LMENU {
        XK_Alt_L
    } else if vk == VK_RMENU {
        XK_Alt_R
    } else if vk == VK_LWIN {
        XK_Super_L
    } else if vk == VK_RWIN {
        XK_Super_R
    } else if vk == VK_OEM_1 {
        0x3b
    } else if vk == VK_OEM_PLUS {
        0x3d
    } else if vk == VK_OEM_COMMA {
        0x2c
    } else if vk == VK_OEM_MINUS {
        0x2d
    } else if vk == VK_OEM_PERIOD {
        0x2e
    } else if vk == VK_OEM_2 {
        0x2f
    } else if vk == VK_OEM_3 {
        0x60
    } else if vk == VK_OEM_4 {
        0x5b
    } else if vk == VK_OEM_5 {
        0x5c
    } else if vk == VK_OEM_6 {
        0x5d
    } else if vk == VK_OEM_7 {
        0x27
    } else if vk == VK_OEM_8 || vk == VK_OEM_102 {
        XK_less
    } else {
        0
    }
}

/// Maps a keysym to its virtual-key code.
pub fn keysym_to_vk(keysym: KeySym) -> (vk: u16)
    ensures
        vk == vk_of_keysym(keysym),
{
    if 0x41 <= keysym && keysym <= 0x5a {
        keysym as u16
    } else if 0x61 <= keysym && keysym <= 0x7a {
        (keysym as u16) - 0x20
    } else if 0x30 <= keysym && keysym <= 0x39 {
        keysym as u16
    } else if XK_F1 <= keysym && keysym <= XK_F24 {
        VK_F1 + (keysym - XK_F1) as u16
    } else if XK_KP_0 <= keysym && keysym <= XK_KP_9 {
        VK_NUMPAD0 + (keysym - XK_KP_0) as u16
    } else if keysym == XK_space {
        VK_SPACE
    } else if keysym == XK_BackSpace {
        VK_BACK
    } else if keysym == XK_Tab {
        VK_TAB
    } else if keysym == XK_Return {
        VK_RETURN
    } else if keysym == XK_Escape {
        VK_ESCAPE
    } else if keysym == XK_Pause {
        VK_PAUSE
    } else if keysym == XK_Scroll_Lock {
        VK_SCROLL
    } else if keysym == XK_Caps_Lock {
        VK_CAPITAL
    } else if keysym == XK_Num_Lock {
        VK_NUMLOCK
    } else if keysym == XK_Home {
        VK_HOME
    } else if keysym == XK_End {
        VK_END
    } else if keysym == XK_Left {
        VK_LEFT
    } else if keysym == XK_Up {
        VK_UP
    } else if keysym == XK_Right {
        VK_RIGHT
    } else if keysym == XK_Down {
        VK_DOWN
    } else if keysym == XK_Prior {
        VK_PRIOR
    } else if keysym == XK_Next {
        VK_NEXT
    } else if keysym == XK_Insert {
        VK_INSERT
    } else if keysym == XK_Delete {
        VK_DELETE
    } else if keysym == XK_Print {
        VK_SNAPSHOT
    } else if keysym == XK_Menu {
        VK_APPS
    } else if keysym == XK_KP_Enter {
        VK_RETURN
    } else if keysym == XK_KP_Multiply {
        VK_MULTIPLY
    } else if keysym == XK_KP_Add {
        VK_ADD
    } else if keysym == XK_KP_Subtract {
        VK_SUBTRACT
    } else if keysym == XK_KP_Decimal {
        VK_DECIMAL
    } else if keysym == XK_KP_Divide {
        VK_DIVIDE
    } else if keysym == XK_Shift_L {
        VK_LSHIFT
    } else if keysym == XK_Shift_R {
        VK_RSHIFT
    } else if keysym == XK_Control_L {
        VK_LCONTROL
    } else if keysym == XK_Control_R {
        VK_RCONTROL
    } else if keysym == XK_Alt_L {
        VK_LMENU
    } else if keysym == XK_Alt_R {
        VK_RMENU
    } else if keysym == XK_Super_L || keysym == XK_Meta_L {
        VK_LWIN
    } else if keysym == XK_Super_R || keysym == XK_Meta_R {
        VK_RWIN
    } else if keysym == 0x3b {
        VK_OEM_1
    } else if keysym == 0x3d {
        VK_OEM_PLUS
    } else if keysym == 0x2c {
        VK_OEM_COMMA
    } else if keysym == 0x2d {
        VK_OEM_MINUS
    } else if keysym == 0x2e {
        VK_OEM_PERIOD
    } else if keysym == 0x2f {
        VK_OEM_2
    } else if keysym == 0x60 {
        VK_OEM_3
    } else if keysym == 0x5b {
        VK_OEM_4
    } else if keysym == 0x5c {
        VK_OEM_5
    } else if keysym == 0x5d {
        VK_OEM_6
    } else if keysym == 0x27 {
        VK_OEM_7
    } else if keysym == XK_less {
        VK_OEM_8
    } else {
        0
    }
}

/// The named keys carry the `keysymdef.h` keysym of the same key, in both
/// directions: the arrows, the editing and navigation block, the lock and
/// system keys, the keypad operators, the modifiers by side and the Windows
/// keys. The punctuation keys of a US layout carry the keysyms of `;` `=` `,`
/// `-` `.` `/` `` ` `` `[` `\` `]` `'`, and the non-US backslash key that of `<`.
/// Two keysyms read back as a key with another keysym of its own: keypad Enter
/// as Return, and the Meta keys as the Windows keys.
pub proof fn lemma_named_keys()
    ensures
        keysym_of_vk(VK_LEFT) == XK_Left && vk_of_keysym(XK_Left) == VK_LEFT,
        keysym_of_vk(VK_RIGHT) == XK_Right && vk_of_keysym(XK_Right) == VK_RIGHT,
        keysym_of_vk(VK_UP) == XK_Up && vk_of_keysym(XK_Up) == VK_UP,
        keysym_of_vk(VK_DOWN) == XK_Down && vk_of_keysym(XK_Down) == VK_DOWN,
        keysym_of_vk(VK_HOME) == XK_Home && vk_of_keysym(XK_Home) == VK_HOME,
        keysym_of_vk(VK_END) == XK_End && vk_of_keysym(XK_End) == VK_END,
        keysym_of_vk(VK_PRIOR) == XK_Prior && vk_of_keysym(XK_Prior) == VK_PRIOR,
        keysym_of_vk(VK_NEXT) == XK_Next && vk_of_keysym(XK_Next) == VK_NEXT,
        keysym_of_vk(VK_INSERT) == XK_Insert && vk_of_keysym(XK_Insert) == VK_INSERT,
        keysym_of_vk(VK_DELETE) == XK_Delete && vk_of_keysym(XK_Delete) == VK_DELETE,
        keysym_of_vk(VK_SPACE) == XK_space && vk_of_keysym(XK_space) == VK_SPACE,
        keysym_of_vk(VK_BACK) == XK_BackSpace && vk_of_keysym(XK_BackSpace) == VK_BACK,
        keysym_of_vk(VK_TAB) == XK_Tab && vk_of_keysym(XK_Tab) == VK_TAB,
        keysym_of_vk(VK_RETURN) == XK_Return && vk_of_keysym(XK_Return) == VK_RETURN,
        keysym_of_vk(VK_ESCAPE) == XK_Escape && vk_of_keysym(XK_Escape) == VK_ESCAPE,
        keysym_of_vk(VK_PAUSE) == XK_Pause && vk_of_keysym(XK_Pause) == VK_PAUSE,
        keysym_of_vk(VK_SCROLL) == XK_Scroll_Lock && vk_of_keysym(XK_Scroll_Lock) == VK_SCROLL,
        keysym_of_vk(VK_CAPITAL) == XK_Caps_Lock && vk_of_keysym(XK_Caps_Lock) == VK_CAPITAL,
        keysym_of_vk(VK_NUMLOCK) == XK_Num_Lock && vk_of_keysym(XK_Num_Lock) == VK_NUMLOCK,
        keysym_of_vk(VK_SNAPSHOT) == XK_Print && vk_of_keysym(XK_Print) == VK_SNAPSHOT,
        keysym_of_vk(VK_APPS) == XK_Menu && vk_of_keysym(XK_Menu) == VK_APPS,
        keysym_of_vk(VK_HELP) == XK_Help,
        keysym_of_vk(VK_MULTIPLY) == XK_KP_Multiply && vk_of_keysym(XK_KP_Multiply) == VK_MULTIPLY,
        keysym_of_vk(VK_ADD) == XK_KP_Add && vk_of_keysym(XK_KP_Add) == VK_ADD,
        keysym_of_vk(VK_SUBTRACT) == XK_KP_Subtract && vk_of_keysym(XK_KP_Subtract) == VK_SUBTRACT,
        keysym_of_vk(VK_DECIMAL) == XK_KP_Decimal && vk_of_keysym(XK_KP_Decimal) == VK_DECIMAL,
        keysym_of_vk(VK_DIVIDE) == XK_KP_Divide && vk_of_keysym(XK_KP_Divide) == VK_DIVIDE,
        keysym_of_vk(VK_LSHIFT) == XK_Shift_L && vk_of_keysym(XK_Shift_L) == VK_LSHIFT,
        keysym_of_vk(VK_RSHIFT) == XK_Shift_R && vk_of_keysym(XK_Shift_R) == VK_RSHIFT,
        keysym_of_vk(VK_LCONTROL) == XK_Control_L && vk_of_keysym(XK_Control_L) == VK_LCONTROL,
        keysym_of_vk(VK_RCONTROL) == XK_Control_R && vk_of_keysym(XK_Control_R) == VK_RCONTROL,
        keysym_of_vk(VK_LMENU) == XK_Alt_L && vk_of_keysym(XK_Alt_L) == VK_LMENU,
        keysym_of_vk(VK_RMENU) == XK_Alt_R && vk_of_keysym(XK_Alt_R) == VK_RMENU,
        keysym_of_vk(VK_SHIFT) == XK_Shift_L,
        keysym_of_vk(VK_CONTROL) == XK_Control_L,
        keysym_of_vk(VK_MENU) == XK_Alt_L,
        keysym_of_vk(VK_LWIN) == XK_Super_L && vk_of_keysym(XK_Super_L) == VK_LWIN,
        keysym_of_vk(VK_RWIN) == XK_Super_R && vk_of_keysym(XK_Super_R) == VK_RWIN,
        vk_of_keysym(XK_Meta_L) == VK_LWIN && vk_of_keysym(XK_Meta_R) == VK_RWIN,
        vk_of_keysym(XK_KP_Enter) == VK_RETURN,
        keysym_of_vk(VK_OEM_1) == 0x3b && vk_of_keysym(0x3b) == VK_OEM_1,
        keysym_of_vk(VK_OEM_PLUS) == 0x3d && vk_of_keysym(0x3d) == VK_OEM_PLUS,
        keysym_of_vk(VK_OEM_COMMA) == 0x2c && vk_of_keysym(0x2c) == VK_OEM_COMMA,
        keysym_of_vk(VK_OEM_MINUS) == 0x2d && vk_of_keysym(0x2d) == VK_OEM_MINUS,
        keysym_of_vk(VK_OEM_PERIOD) == 0x2e && vk_of_keysym(0x2e) == VK_OEM_PERIOD,
        keysym_of_vk(VK_OEM_2) == 0x2f && vk_of_keysym(0x2f) == VK_OEM_2,
        keysym_of_vk(VK_OEM_3) == 0x60 && vk_of_keysym(0x60) == VK_OEM_3,
        keysym_of_vk(VK_OEM_4) == 0x5b && vk_of_keysym(0x5b) == VK_OEM_4,
        keysym_of_vk(VK_OEM_5) == 0x5c && vk_of_keysym(0x5c) == VK_OEM_5,
        keysym_of_vk(VK_OEM_6) == 0x5d && vk_of_keysym(0x5d) == VK_OEM_6,
        keysym_of_vk(VK_OEM_7) == 0x27 && vk_of_keysym(0x27) == VK_OEM_7,
        keysym_of_vk(VK_OEM_102) == XK_less,
{
}

/// The keys that come in runs follow their run in both directions: a digit
/// key is its own ASCII digit; a letter key is registered under its lowercase
/// letter and both cases of the letter read back as the key; F1 to F24 and
/// keypad 0 to 9 step through `XK_F1..` and `XK_KP_0..` in order.
pub proof fn lemma_key_runs()
    ensures
        forall|vk: u16| 0x30 <= vk <= 0x39 ==> #[trigger] keysym_of_vk(vk) == vk,
        forall|vk: u16| VK_A <= vk <= VK_Z ==> #[trigger] keysym_of_vk(vk) == vk + 0x20,
        forall|vk: u16|
            VK_F1 <= vk <= VK_F24 ==> #[trigger] keysym_of_vk(vk) == XK_F1 + (vk - VK_F1),
        forall|vk: u16|
            VK_NUMPAD0 <= vk <= VK_NUMPAD9 ==> #[trigger] keysym_of_vk(vk) == XK_KP_0 + (vk
                - VK_NUMPAD0),
        forall|k: KeySym| 0x30 <= k <= 0x39 ==> #[trigger] vk_of_keysym(k) == k,
        forall|k: KeySym| 0x41 <= k <= 0x5a ==> #[trigger] vk_of_keysym(k) == k,
        forall|k: KeySym| 0x61 <= k <= 0x7a ==> #[trigger] vk_of_keysym(k) == k - 0x20,
        forall|k: KeySym| XK_F1 <= k <= XK_F24 ==> #[trigger] vk_of_keysym(k) == VK_F1 + (k - XK_F1),
        forall|k: KeySym|
            XK_KP_0 <= k <= XK_KP_9 ==> #[trigger] vk_of_keysym(k) == VK_NUMPAD0 + (k - XK_KP_0),
{
}

/// The code a virtual key is reported as after a trip through its keysym: the
/// generic Shift, Control and Alt codes come back as their left-hand codes, and
/// the non-US backslash key comes back as `VK_OEM_8`, which shares its keysym.
pub open spec fn canonical_vk(vk: u16) -> u16 {
    if vk == VK_SHIFT {
        VK_LSHIFT
    } else if vk == VK_CONTROL {
        VK_LCONTROL
    } else if vk == VK_MENU {
        VK_LMENU
    } else if vk == VK_OEM_102 {
        VK_OEM_8
    } else {
        vk
    }
}

/// Every virtual key that has a keysym, except Help (whose keysym is not read
/// back), is recognised again from that keysym, as its canonical code.
pub proof fn lemma_vk_keysym_round_trip(vk: u16)
    requires
        keysym_of_vk(vk) != 0,
        vk != VK_HELP,
    ensures
        vk_of_keysym(keysym_of_vk(vk)) == canonical_vk(vk),
{
}

/// A keysym that is recognised as a virtual key is registered back under a
/// keysym that is recognised as the same key.
pub proof fn lemma_keysym_vk_round_trip(keysym: KeySym)
    requires
        vk_of_keysym(keysym) != 0,
    ensures
        keysym_of_vk(vk_of_keysym(keysym)) != 0,
        vk_of_keysym(keysym_of_vk(vk_of_keysym(keysym))) == vk_of_keysym(keysym),
{
}

} // verus!
