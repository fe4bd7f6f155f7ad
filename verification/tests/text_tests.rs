use instantwm_rs::action::{check_action, parse_verb, Verb};
use instantwm_rs::error::InstantError;
use instantwm_rs::keybindings::{
    format_keybinding, handle_key_event, key_name_of, Modifiers, KEY_1, KEY_9, KEY_F12, KEY_RETURN,
    KEY_SPACE, KEY_SUPER_L,
};
use instantwm_rs::text::{
    char_is_space, chars_of, decimal_string, parse_u32, split_whitespace, str_eq,
};

#[test]
fn words_are_split_at_white_space() {
    assert_eq!(split_whitespace("switch_tag 3"), vec!["switch_tag", "3"]);
    assert_eq!(split_whitespace("  spawn \t pactl\nset  "), vec!["spawn", "pactl", "set"]);
    assert_eq!(split_whitespace("\u{a0}a\u{3000}b\u{2003}"), vec!["a", "b"]);
    assert_eq!(split_whitespace("gr\u{fc}\u{df}e welt"), vec!["gr\u{fc}\u{df}e", "welt"]);
    assert!(split_whitespace("").is_empty());
    assert!(split_whitespace(" \t\r\n").is_empty());
}

#[test]
fn white_space_follows_unicode() {
    for c in ['\t', '\n', '\u{b}', '\u{c}', '\r', ' ', '\u{85}', '\u{a0}', '\u{1680}', '\u{2000}',
        '\u{200a}', '\u{2028}', '\u{2029}', '\u{202f}', '\u{205f}', '\u{3000}']
    {
        assert!(char_is_space(c));
        assert!(c.is_whitespace());
    }
    for c in ['a', '0', '\u{200b}', '\u{feff}', '\u{8}', '\u{e}', '\u{1f}'] {
        assert!(!char_is_space(c));
        assert!(!c.is_whitespace());
    }
}

#[test]
fn numbers_are_read_like_u32() {
    assert_eq!(parse_u32("0"), Some(0));
    assert_eq!(parse_u32("7"), Some(7));
    assert_eq!(parse_u32("+7"), Some(7));
    assert_eq!(parse_u32("007"), Some(7));
    assert_eq!(parse_u32("4294967295"), Some(u32::MAX));
    assert_eq!(parse_u32("4294967296"), None);
    assert_eq!(parse_u32("99999999999999999999999"), None);
    assert_eq!(parse_u32(""), None);
    assert_eq!(parse_u32("+"), None);
    assert_eq!(parse_u32("-1"), None);
    assert_eq!(parse_u32("1 "), None);
    assert_eq!(parse_u32("1a"), None);
    assert_eq!(parse_u32("++1"), None);
    assert_eq!(parse_u32("\u{664}"), None);
    for text in ["0", "+7", "007", "4294967296", "", "+", "-1", "1a", "++1"] {
        assert_eq!(parse_u32(text), text.parse::<u32>().ok());
    }
}

#[test]
fn numbers_are_written_in_decimal() {
    assert_eq!(decimal_string(0), "0");
    assert_eq!(decimal_string(9), "9");
    assert_eq!(decimal_string(10), "10");
    assert_eq!(decimal_string(4096), "4096");
    assert_eq!(decimal_string(u64::MAX), "18446744073709551615");
}

#[test]
fn strings_are_compared_by_characters() {
    assert!(str_eq("", ""));
    assert!(str_eq("tiling", "tiling"));
    assert!(!str_eq("tiling", "tilinG"));
    assert!(!str_eq("tiling", "tilin"));
    assert!(str_eq("gr\u{fc}n", "gr\u{fc}n"));
    assert_eq!(chars_of("a\u{fc}"), vec!['a', '\u{fc}']);
}

#[test]
fn verbs_are_recognised() {
    assert_eq!(parse_verb("spawn"), Some(Verb::Spawn));
    assert_eq!(parse_verb("close_window"), Some(Verb::CloseWindow));
    assert_eq!(parse_verb("toggle_layout"), Some(Verb::CycleLayout));
    assert_eq!(parse_verb("cycle_layout"), Some(Verb::CycleLayout));
    assert_eq!(parse_verb("decrease_master_count"), Some(Verb::DecreaseMasterCount));
    assert_eq!(parse_verb("exit"), Some(Verb::Exit));
    assert_eq!(parse_verb("Exit"), None);
    assert_eq!(parse_verb("toggle_sticky"), None);
    assert_eq!(parse_verb(""), None);
}

#[test]
fn key_combinations_have_canonical_names() {
    let none = Modifiers { ctrl: false, alt: false, shift: false, logo: false };
    let all = Modifiers { ctrl: true, alt: true, shift: true, logo: true };
    let logo_shift = Modifiers { ctrl: false, alt: false, shift: true, logo: true };
    assert_eq!(format_keybinding(KEY_RETURN, logo_shift), "Shift+Mod4+Return");
    assert_eq!(format_keybinding(KEY_SPACE, all), "Ctrl+Alt+Shift+Mod4+space");
    assert_eq!(format_keybinding(KEY_F12, none), "F12");
    assert_eq!(format_keybinding(0x61, none), "Unknown");
    assert_eq!(key_name_of(0xff54), "Down");
    assert_eq!(key_name_of(0x2c), "comma");
    assert_eq!(key_name_of(KEY_SUPER_L), "Unknown");
}

#[test]
fn digits_select_workspaces_while_super_is_held() {
    let held = Modifiers { ctrl: false, alt: false, shift: false, logo: true };
    let free = Modifiers { ctrl: true, alt: true, shift: true, logo: false };
    assert_eq!(handle_key_event(4, KEY_1, held), 0);
    assert_eq!(handle_key_event(4, KEY_9, held), 8);
    assert_eq!(handle_key_event(4, KEY_1 + 4, held), 4 + 0);
    assert_eq!(handle_key_event(4, KEY_1 - 1, held), 4);
    assert_eq!(handle_key_event(4, KEY_RETURN, held), 4);
    assert_eq!(handle_key_event(4, KEY_1, free), 4);
}

#[test]
fn errors_have_messages() {
    assert_eq!(InstantError::Io("denied".to_string()).message(), "IO error: denied");
    assert_eq!(InstantError::Toml("line 3".to_string()).message(), "TOML parsing error: line 3");
    assert_eq!(InstantError::Smithay("x".to_string()).message(), "Smithay error: x");
    assert_eq!(InstantError::Config("y".to_string()).message(), "Configuration error: y");
    assert_eq!(InstantError::Ipc("z".to_string()).message(), "IPC error: z");
    assert_eq!(InstantError::Theme("t".to_string()).message(), "Theme error: t");
    assert_eq!(InstantError::Other("o".to_string()).message(), "Other error: o");
    assert_eq!(InstantError::NotFound.message(), "Not found");
    assert_eq!(InstantError::InvalidArgument.message(), "Invalid argument");
    assert_eq!(InstantError::SpawnFailed("sh".to_string()).message(), "Failed to spawn: sh");
}

#[test]
fn actions_are_checked_before_they_are_bound() {
    assert!(matches!(check_action("spawn terminal", 9), Ok(Verb::Spawn)));
    assert!(matches!(check_action("close_window", 9), Ok(Verb::CloseWindow)));
    assert!(matches!(check_action("switch_tag 1", 9), Ok(Verb::SwitchTag)));
    assert!(matches!(check_action("switch_tag 9", 9), Ok(Verb::SwitchTag)));
    assert!(matches!(check_action("move_to_tag +3", 9), Ok(Verb::MoveToTag)));
    assert!(matches!(check_action("exit now", 0), Ok(Verb::Exit)));
    for action in [
        "",
        "  ",
        "spawn",
        "toggle_sticky",
        "switch_tag",
        "switch_tag 0",
        "switch_tag 10",
        "switch_tag x",
        "move_to_tag 4294967296",
        "move_to_tag -1",
    ] {
        assert!(matches!(check_action(action, 9), Err(InstantError::InvalidArgument)));
    }
    assert!(matches!(check_action("switch_tag 1", 0), Err(InstantError::InvalidArgument)));
}

#[test]
fn white_space_agrees_with_the_standard_library_on_every_character() {
    for code in 0..=0x10ffffu32 {
        if let Some(c) = char::from_u32(code) {
            assert_eq!(char_is_space(c), c.is_whitespace(), "U+{:04X}", code);
        }
    }
}

#[test]
fn numbers_round_trip() {
    let mut n: u64 = 1;
    for step in 0..200u64 {
        let text = decimal_string(n);
        assert_eq!(text, n.to_string());
        assert_eq!(parse_u32(&text), u32::try_from(n).ok());
        n = n.wrapping_mul(6364136223846793005).wrapping_add(step) >> (step % 40);
    }
}
