//! Keys and key combinations: the codes of the keys that bindings name, the
//! canonical name of a combination, and the numbered-workspace shortcut.

use vstd::prelude::*;
use vstd::string::StringExecFns;

verus! {

/// Keysym of the Return key.
pub const KEY_RETURN: u32 = 0xff0d;

/// Keysym of the space bar.
pub const KEY_SPACE: u32 = 0x0020;

/// Keysym of the Tab key.
pub const KEY_TAB: u32 = 0xff09;

/// Keysym of the key `h`.
pub const KEY_H: u32 = 0x0068;

/// Keysym of the key `j`.
pub const KEY_J: u32 = 0x006a;

/// Keysym of the key `k`.
pub const KEY_K: u32 = 0x006b;

/// Keysym of the key `l`.
pub const KEY_L: u32 = 0x006c;

/// Keysym of the key `q`.
pub const KEY_Q: u32 = 0x0071;

/// Keysym of the key `d`.
pub const KEY_D: u32 = 0x0064;

/// Keysym of the key `f`.
pub const KEY_F: u32 = 0x0066;

/// Keysym of the key `m`.
pub const KEY_M: u32 = 0x006d;

/// Keysym of the key `o`.
pub const KEY_O: u32 = 0x006f;

/// Keysym of the key `r`.
pub const KEY_R: u32 = 0x0072;

/// Keysym of the key `e`.
pub const KEY_E: u32 = 0x0065;

/// Keysym of the key `c`.
pub const KEY_C: u32 = 0x0063;

/// Keysym of the comma key.
pub const KEY_COMMA: u32 = 0x002c;

/// Keysym of the full stop key.
pub const KEY_PERIOD: u32 = 0x002e;

/// Keysym of the left arrow.
pub const KEY_LEFT: u32 = 0xff51;

/// Keysym of the right arrow.
pub const KEY_RIGHT: u32 = 0xff53;

/// Keysym of the key `1`.
pub const KEY_1: u32 = 0x0031;

/// Keysym of the key `2`.
pub const KEY_2: u32 = 0x0032;

/// Keysym of the key `3`.
pub const KEY_3: u32 = 0x0033;

/// Keysym of the key `4`.
pub const KEY_4: u32 = 0x0034;

/// Keysym of the key `5`.
pub const KEY_5: u32 = 0x0035;

/// Keysym of the key `6`.
pub const KEY_6: u32 = 0x0036;

/// Keysym of the key `7`.
pub const KEY_7: u32 = 0x0037;

/// Keysym of the key `8`.
pub const KEY_8: u32 = 0x0038;

/// Keysym of the key `9`.
pub const KEY_9: u32 = 0x0039;

/// Keysym of the key `0`.
pub const KEY_0: u32 = 0x0030;

/// Keysym of the Print key.
pub const KEY_PRINT: u32 = 0xff61;

/// Keysym of the key `F1`.
pub const KEY_F1: u32 = 0xffbe;

/// Keysym of the key `F2`.
pub const KEY_F2: u32 = 0xffbf;

/// Keysym of the key `F3`.
pub const KEY_F3: u32 = 0xffc0;

/// Keysym of the key `F4`.
pub const KEY_F4: u32 = 0xffc1;

/// Keysym of the key `F5`.
pub const KEY_F5: u32 = 0xffc2;

/// Keysym of the key `F6`.
pub const KEY_F6: u32 = 0xffc3;

/// Keysym of the key `F7`.
pub const KEY_F7: u32 = 0xffc4;

/// Keysym of the key `F8`.
pub const KEY_F8: u32 = 0xffc5;

/// Keysym of the key `F9`.
pub const KEY_F9: u32 = 0xffc6;

/// Keysym of the key `F10`.
pub const KEY_F10: u32 = 0xffc7;

/// Keysym of the key `F11`.
pub const KEY_F11: u32 = 0xffc8;

/// Keysym of the key `F12`.
pub const KEY_F12: u32 = 0xffc9;

/// Keysym of the Escape key.
pub const KEY_ESCAPE: u32 = 0xff1b;

/// Keysym of the up arrow.
pub const KEY_UP: u32 = 0xff52;

/// Keysym of the down arrow.
pub const KEY_DOWN: u32 = 0xff54;

/// Keysym of the left Super key.
pub const KEY_SUPER_L: u32 = 0xffeb;

/// Keysym of the right Super key.
pub const KEY_SUPER_R: u32 = 0xffec;

/// The modifier keys that are held down.
#[derive(Debug, Clone, Copy, PartialEq, Eq, Structural)]
pub struct Modifiers {
    pub ctrl: bool,
    pub alt: bool,
    pub shift: bool,
    pub logo: bool,
}

/// The name by which bindings call a key; `Unknown` for a key that no
/// binding can name.
pub open spec fn key_name(keysym: u32) -> Seq<char> {
    if keysym == KEY_RETURN {
        "Return"@
    } else if keysym == KEY_SPACE {
        "space"@
    } else if keysym == KEY_TAB {
        "Tab"@
    } else if keysym == KEY_H {
        "h"@
    } else if keysym == KEY_J {
        "j"@
    } else if keysym == KEY_K {
        "k"@
    } else if keysym == KEY_L {
        "l"@
    } else if keysym == KEY_Q {
        "q"@
    } else if keysym == KEY_D {
        "d"@
    } else if keysym == KEY_F {
        "f"@
    } else if keysym == KEY_M {
        "m"@
    } else if keysym == KEY_O {
        "o"@
    } else if keysym == KEY_R {
        "r"@
    } else if keysym == KEY_E {
        "e"@
    } else if keysym == KEY_C {
        "c"@
    } else if keysym == KEY_COMMA {
        "comma"@
    } else if keysym == KEY_PERIOD {
        "period"@
    } else if keysym == KEY_LEFT {
        "Left"@
    } else if keysym == KEY_RIGHT {
        "Right"@
    } else if keysym == KEY_1 {
        "1"@
    } else if keysym == KEY_2 {
        "2"@
    } else if keysym == KEY_3 {
        "3"@
    } else if keysym == KEY_4 {
        "4"@
    } else if keysym == KEY_5 {
        "5"@
    } else if keysym == KEY_6 {
        "6"@
    } else if keysym == KEY_7 {
        "7"@
    } else if keysym == KEY_8 {
        "8"@
    } else if keysym == KEY_9 {
        "9"@
    } else if keysym == KEY_0 {
        "0"@
    } else if keysym == KEY_PRINT {
        "Print"@
    } else if keysym == KEY_F1 {
        "F1"@
    } else if keysym == KEY_F2 {
        "F2"@
    } else if keysym == KEY_F3 {
        "F3"@
    } else if keysym == KEY_F4 {
        "F4"@
    } else if keysym == KEY_F5 {
        "F5"@
    } else if keysym == KEY_F6 {
        "F6"@
    } else if keysym == KEY_F7 {
        "F7"@
    } else if keysym == KEY_F8 {
        "F8"@
    } else if keysym == KEY_F9 {
        "F9"@
    } else if keysym == KEY_F10 {
        "F10"@
    } else if keysym == KEY_F11 {
        "F11"@
    } else if keysym == KEY_F12 {
        "F12"@
    } else if keysym == KEY_ESCAPE {
        "Escape"@
    } else if keysym == KEY_UP {
        "Up"@
    } else if keysym == KEY_DOWN {
        "Down"@
    } else {
        "Unknown"@
    }
}

/// The names of the held modifiers, each followed by `+`, in the order
/// `Ctrl`, `Alt`, `Shift`, `Mod4`.
pub open spec fn modifier_prefix(modifiers: Modifiers) -> Seq<char> {
    (if modifiers.ctrl {
        "Ctrl+"@
    } else {
        Seq::<char>::empty()
    }) + (if modifiers.alt {
        "Alt+"@
    } else {
        Seq::<char>::empty()
    }) + (if modifiers.shift {
        "Shift+"@
    } else {
        Seq::<char>::empty()
    }) + (if modifiers.logo {
        "Mod4+"@
    } else {
        Seq::<char>::empty()
    })
}

/// The canonical name of a key combination, such as `Mod4+Shift+Return`.
pub open spec fn keybinding_name(keysym: u32, modifiers: Modifiers) -> Seq<char> {
    modifier_prefix(modifiers) + key_name(keysym)
}

/// The name by which bindings call a key.
pub fn key_name_of(keysym: u32) -> (name: &'static str)
    ensures
        name@ == key_name(keysym),
{
    if keysym == KEY_RETURN {
        "Return"
    } else if keysym == KEY_SPACE {
        "space"
    } else if keysym == KEY_TAB {
        "Tab"
    } else if keysym == KEY_H {
        "h"
    } else if keysym == KEY_J {
        "j"
    } else if keysym == KEY_K {
        "k"
    } else if keysym == KEY_L {
        "l"
    } else if keysym == KEY_Q {
        "q"
    } else if keysym == KEY_D {
        "d"
    } else if keysym == KEY_F {
        "f"
    } else if keysym == KEY_M {
        "m"
    } else if keysym == KEY_O {
        "o"
    } else if keysym == KEY_R {
        "r"
    } else if keysym == KEY_E {
        "e"
    } else if keysym == KEY_C {
        "c"
    } else if keysym == KEY_COMMA {
        "comma"
    } else if keysym == KEY_PERIOD {
        "period"
    } else if keysym == KEY_LEFT {
        "Left"
    } else if keysym == KEY_RIGHT {
        "Right"
    } else if keysym == KEY_1 {
        "1"
    } else if keysym == KEY_2 {
        "2"
    } else if keysym == KEY_3 {
        "3"
    } else if keysym == KEY_4 {
        "4"
    } else if keysym == KEY_5 {
        "5"
    } else if keysym == KEY_6 {
        "6"
    } else if keysym == KEY_7 {
        "7"
    } else if keysym == KEY_8 {
        "8"
    } else if keysym == KEY_9 {
        "9"
    } else if keysym == KEY_0 {
        "0"
    } else if keysym == KEY_PRINT {
        "Print"
    } else if keysym == KEY_F1 {
        "F1"
    } else if keysym == KEY_F2 {
        "F2"
    } else if keysym == KEY_F3 {
        "F3"
    } else if keysym == KEY_F4 {
        "F4"
    } else if keysym == KEY_F5 {
        "F5"
    } else if keysym == KEY_F6 {
        "F6"
    } else if keysym == KEY_F7 {
        "F7"
    } else if keysym == KEY_F8 {
        "F8"
    } else if keysym == KEY_F9 {
        "F9"
    } else if keysym == KEY_F10 {
        "F10"
    } else if keysym == KEY_F11 {
        "F11"
    } else if keysym == KEY_F12 {
        "F12"
    } else if keysym == KEY_ESCAPE {
        "Escape"
    } else if keysym == KEY_UP {
        "Up"
    } else if keysym == KEY_DOWN {
        "Down"
    } else {
        "Unknown"
    }
}

/// The canonical name of a key combination: the held modifiers in the order
/// `Ctrl`, `Alt`, `Shift`, `Mod4`, then the key, joined by `+`.
pub fn format_keybinding(keysym: u32, modifiers: Modifiers) -> (name: String)
    ensures
        name@ == keybinding_name(keysym, modifiers),
{
    let mut name = String::new();
    if modifiers.ctrl {
        name.append("Ctrl+");
    }
    if modifiers.alt {
        name.append("Alt+");
    }
    if modifiers.shift {
        name.append("Shift+");
    }
    if modifiers.logo {
        name.append("Mod4+");
    }
    assert(name@ =~= modifier_prefix(modifiers));
    name.append(key_name_of(keysym));
    name
}

/// The workspace that a digit key selects: the keys `1` to `9` select the
/// workspaces 0 to 8.
pub open spec fn workspace_of_key(keysym: u32) -> Option<usize> {
    if KEY_1 <= keysym <= KEY_9 {
        Some((keysym - KEY_1) as usize)
    } else {
        None
    }
}

/// The workspace that is active after a key press: the one that the digit
/// selects where Super is held and the key is one of `1` to `9`, else the
/// one that was active.
pub fn handle_key_event(active_workspace: usize, keysym: u32, modifiers: Modifiers) -> (active:
    usize)
    ensures
        active == if modifiers.logo && workspace_of_key(keysym) is Some {
            workspace_of_key(keysym).unwrap()
        } else {
            active_workspace
        },
{
    if modifiers.logo && KEY_1 <= keysym && keysym <= KEY_9 {
        (keysym - KEY_1) as usize
    } else {
        active_workspace
    }
}

} // verus!
