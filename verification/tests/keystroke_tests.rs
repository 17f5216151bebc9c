use vscode_keymap::keystroke::{
    display_keystroke, is_alphabetic_key, is_immutable_key, InvalidKeystroke, Keystroke, Modifiers,
};
use vscode_keymap::layout::WindowsKeyboardLayout;
use vscode_keymap::error::LayoutUnavailable;

fn held(control: bool, alt: bool, shift: bool, platform: bool) -> Modifiers {
    Modifiers { control, alt, shift, platform }
}

fn stroke(modifiers: Modifiers, key: &str) -> Result<Keystroke, InvalidKeystroke> {
    Ok(Keystroke { modifiers, key: key.to_string() })
}

fn invalid(source: &str) -> Result<Keystroke, InvalidKeystroke> {
    Err(InvalidKeystroke { keystroke: source.to_string() })
}

#[test]
fn no_modifier_is_the_default() {
    assert_eq!(Modifiers::default(), held(false, false, false, false));
    assert!(!Modifiers::default().modified());
    assert!(held(false, false, false, true).modified());
    assert!(held(false, true, false, false).modified());
}

#[test]
fn a_combination_is_read_token_by_token() {
    assert_eq!(Keystroke::parse_with_separator("a", '+'), stroke(held(false, false, false, false), "a"));
    assert_eq!(
        Keystroke::parse_with_separator("ctrl+shift+a", '+'),
        stroke(held(true, false, true, false), "a")
    );
    assert_eq!(
        Keystroke::parse_with_separator("alt+cmd+f5", '+'),
        stroke(held(false, true, false, true), "f5")
    );
    assert_eq!(
        Keystroke::parse_with_separator("shift+[BracketRight]", '+'),
        stroke(held(false, false, true, false), "[BracketRight]")
    );
    assert_eq!(
        Keystroke::parse_with_separator("ctrl-alt-delete", '-'),
        stroke(held(true, true, false, false), "delete")
    );
    assert_eq!(
        Keystroke::parse_with_separator("ctrl-shift-+", '-'),
        stroke(held(true, false, true, false), "+")
    );
}

#[test]
fn modifiers_are_read_in_any_case_and_the_key_as_written() {
    assert_eq!(
        Keystroke::parse_with_separator("CTRL+Shift+ALT+A", '+'),
        stroke(held(true, true, true, false), "A")
    );
    for platform in ["cmd", "super", "win", "meta", "Win", "META"] {
        let source = format!("{}+Tab", platform);
        assert_eq!(
            Keystroke::parse_with_separator(&source, '+'),
            stroke(held(false, false, false, true), "Tab")
        );
    }
    assert_eq!(
        Keystroke::parse_with_separator("shift+shift+x", '+'),
        stroke(held(false, false, true, false), "x")
    );
}

#[test]
fn the_last_token_is_the_key_even_where_it_names_a_modifier() {
    assert_eq!(Keystroke::parse_with_separator("ctrl+shift", '+'), stroke(held(true, false, false, false), "shift"));
    assert_eq!(Keystroke::parse_with_separator("alt", '+'), stroke(held(false, false, false, false), "alt"));
}

#[test]
fn a_combination_outside_the_format_is_refused() {
    for source in ["", "+", "ctrl+", "ctrl++", "+a", "foo+a", "ctrl+foo+a", "ctrl +a", "ctrl++a", "ctr+a", "\u{212A}trl+a"] {
        assert_eq!(Keystroke::parse_with_separator(source, '+'), invalid(source));
    }
}

#[test]
fn letters_are_alphabetic_keys() {
    for key in ["a", "m", "z", "A", "Z"] {
        assert!(is_alphabetic_key(key));
    }
    for key in ["", "ab", "1", "=", "é", "[", "`", "{", "@"] {
        assert!(!is_alphabetic_key(key));
    }
}

#[test]
fn keys_without_a_character_are_immutable() {
    for key in [
        "f1", "f2", "f3", "f4", "f5", "f6", "f7", "f8", "f9", "f10", "f11", "f12", "f13", "f14",
        "f15", "f16", "f17", "f18", "f19", "f20", "f21", "f22", "f23", "f24", "backspace",
        "delete", "left", "right", "up", "down", "pageup", "pagedown", "insert", "home", "end",
        "back", "forward", "escape", "space", "tab", "enter", "shift", "control", "alt",
        "platform", "cmd", "super", "win", "fn", "menu", "copy", "paste", "cut", "find", "open",
        "save",
    ] {
        assert!(is_immutable_key(key));
    }
    for key in ["", "a", "f", "f0", "f25", "F1", "Escape", "=", "ctrl", "save ", "oem_3"] {
        assert!(!is_immutable_key(key));
    }
}

#[test]
fn a_keystroke_is_shown_with_its_modifiers_in_order() {
    assert_eq!(display_keystroke("a", &held(false, false, false, false)), "a");
    assert_eq!(display_keystroke("a", &held(true, true, true, true)), "win-ctrl-shift-alt-a");
    assert_eq!(display_keystroke("=", &held(true, false, true, false)), "ctrl-shift-=");
    assert_eq!(display_keystroke("f1", &held(false, true, false, true)), "win-alt-f1");
    assert_eq!(display_keystroke("", &held(false, false, true, false)), "shift-");
}

#[test]
fn a_layout_keeps_what_the_system_said() {
    let layout = WindowsKeyboardLayout::new(Some("00000409".to_string()), Some("US".to_string())).unwrap();
    assert_eq!(layout.id(), "00000409");
    assert_eq!(layout.name(), "US");
}

#[test]
fn a_layout_needs_both_its_identifier_and_its_name() {
    assert_eq!(WindowsKeyboardLayout::new(None, Some("US".to_string())), Err(LayoutUnavailable));
    assert_eq!(WindowsKeyboardLayout::new(Some("00000409".to_string()), None), Err(LayoutUnavailable));
    assert_eq!(WindowsKeyboardLayout::new(None, None), Err(LayoutUnavailable));
}

#[test]
fn the_unknown_layout_stands_in() {
    let unknown = WindowsKeyboardLayout::unknown();
    assert_eq!(unknown.id(), "unknown");
    assert_eq!(unknown.name(), "unknown");
    assert_eq!(WindowsKeyboardLayout::or_unknown(Err(LayoutUnavailable)), unknown);
    let found = WindowsKeyboardLayout::new(Some("0000040C".to_string()), Some("French".to_string()));
    assert_eq!(WindowsKeyboardLayout::or_unknown(found.clone()), found.unwrap());
}

#[test]
fn the_name_of_a_layout_is_kept_under_its_identifier() {
    assert_eq!(
        WindowsKeyboardLayout::registry_path("00000409"),
        "System\\CurrentControlSet\\Control\\Keyboard Layouts\\00000409"
    );
}
