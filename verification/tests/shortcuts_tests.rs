use vscode_keymap::import::ImportEntry;
use vscode_keymap::keyboard::WindowsKeyboardMapper;
use vscode_keymap::settings::VsCodeSettings;
use vscode_keymap::shortcuts::VsCodeShortcuts;
use vscode_keymap::table::TableLayout;

fn entry(key: &str, command: Option<&str>, when: Option<&str>) -> ImportEntry {
    ImportEntry {
        key: key.to_string(),
        command: command.map(str::to_string),
        when: when.map(str::to_string),
    }
}

fn pair(key: &str, reason: &str) -> (String, String) {
    (key.to_string(), reason.to_string())
}

const ENCODING: &str = "Unable to parse keystroke that using Scan Code or Virtual Key";

fn bindings_of(exported: &str) -> serde_json::Map<String, serde_json::Value> {
    let document: serde_json::Value = serde_json::from_str(exported).unwrap();
    let sections = document.as_array().unwrap();
    assert_eq!(sections.len(), 1);
    let section = sections[0].as_object().unwrap();
    assert_eq!(section.len(), 1);
    section.get("bindings").unwrap().as_object().unwrap().clone()
}

#[test]
fn shortcuts_are_read_leniently() {
    let shortcuts = VsCodeShortcuts::from_str(
        r#"[
            // a comment
            { "key": "ctrl+a", "command": "list.select", "when": "listFocus", },
            { "key": "ctrl+b", "command": "list.clear" },
        ]"#,
    )
    .unwrap();
    assert_eq!(shortcuts.len(), 2);
    assert_eq!(
        shortcuts.entries(),
        vec![
            entry("ctrl+a", Some("list.select"), Some("listFocus")),
            entry("ctrl+b", Some("list.clear"), None)
        ]
    );
    assert_eq!(VsCodeShortcuts::from_str("[]").unwrap().len(), 0);
}

#[test]
fn what_is_no_list_of_objects_is_refused() {
    for content in ["", "{}", "[1]", "[{]", "[{\"key\": }]", "nonsense", "[[]]", "[\"a\"]"] {
        let error = VsCodeShortcuts::from_str(content).unwrap_err();
        assert!(!error.message.is_empty());
    }
}

#[test]
fn a_record_without_a_key_gives_no_entry() {
    let shortcuts = VsCodeShortcuts::from_str(
        r#"[
            { "command": "list.select" },
            { "key": 1, "command": "list.select" },
            { "key": null, "command": "list.select" },
            { "key": ["ctrl+a"], "command": "list.select" },
            {}
        ]"#,
    )
    .unwrap();
    assert_eq!(shortcuts.len(), 5);
    assert_eq!(shortcuts.entries(), vec![]);
    let mapper = WindowsKeyboardMapper::new(TableLayout::new(vec![]));
    assert_eq!(shortcuts.parse_shortcuts(&mapper), vec![]);
}

#[test]
fn a_record_with_a_key_gives_an_entry_whatever_else_it_holds() {
    let shortcuts = VsCodeShortcuts::from_str(
        r#"[
            { "key": "ctrl+a" },
            { "key": "ctrl+b", "command": { "id": "list.select" } },
            { "key": "ctrl+c", "command": "list.select", "when": true },
            { "key": "ctrl+d", "command": "list.clear", "when": "", "args": [1, 2] },
            { "key": "", "command": 7, "when": "x" }
        ]"#,
    )
    .unwrap();
    assert_eq!(shortcuts.len(), 5);
    assert_eq!(
        shortcuts.entries(),
        vec![
            entry("ctrl+a", None, None),
            entry("ctrl+b", None, None),
            entry("ctrl+c", Some("list.select"), None),
            entry("ctrl+d", Some("list.clear"), Some("")),
            entry("", None, Some("x")),
        ]
    );
    let mapper = WindowsKeyboardMapper::new(TableLayout::new(vec![]));
    assert_eq!(
        shortcuts.parse_shortcuts(&mapper),
        vec![
            pair("ctrl+a", "Unable to parse command"),
            pair("ctrl+b", "Unable to parse command"),
            pair("", "Unable to parse keystroke"),
        ]
    );
}

#[test]
fn a_record_without_a_command_is_told_what_is_wrong_with_its_key() {
    let shortcuts = VsCodeShortcuts::from_str(
        r#"[
            { "key": "shift+[BracketRight]" },
            { "key": "ctrl+shift+oem_3", "command": { "id": "x" } }
        ]"#,
    )
    .unwrap();
    let mapper = WindowsKeyboardMapper::new(TableLayout::new(vec![]));
    assert_eq!(
        shortcuts.parse_shortcuts(&mapper),
        vec![pair("shift+[BracketRight]", ENCODING), pair("ctrl+shift+oem_3", ENCODING)]
    );
}

#[test]
fn every_record_with_a_key_is_accepted_or_set_aside() {
    let shortcuts = VsCodeShortcuts::from_str(
        r#"[
            { "key": "ctrl+a", "command": "one" },
            { "key": "shift+[KeyA]" },
            { "command": "two" },
            { "key": "shift+=", "command": "three" },
            { "key": "ctrl+b" },
            { "key": "no+b", "command": "four" },
            { "key": "ctrl+c", "command": "fi\"ve" }
        ]"#,
    )
    .unwrap();
    let mapper = WindowsKeyboardMapper::new(TableLayout::new(vec![('=', '+')]));
    let entries = shortcuts.entries();
    assert_eq!(entries.len(), 6);
    let result = vscode_keymap::import::import(&entries, &mapper, &vscode_keymap::commands::NamedAction);
    assert_eq!(result.accepted.len(), 2);
    assert_eq!(result.accepted[0].action, "one");
    assert_eq!(result.accepted[1].action, "three");
    assert_eq!(result.accepted[1].keystroke.key, "+");
    let skipped = shortcuts.parse_shortcuts(&mapper);
    assert_eq!(skipped, result.skipped);
    assert_eq!(
        skipped,
        vec![
            pair("shift+[KeyA]", ENCODING),
            pair("ctrl+b", "Unable to parse command"),
            pair("no+b", "Unable to parse keystroke"),
            pair("ctrl+c", "Unable to parse command: fi\"ve"),
        ]
    );
    assert_eq!(result.accepted.len() + skipped.len(), 6);
}

#[test]
fn parsing_tells_what_was_set_aside() {
    let shortcuts = VsCodeShortcuts::from_str(
        r#"[
            { "key": "shift+=", "command": "a" },
            { "key": "shift+1", "command": "b" },
            { "key": "nothing+1", "command": "c" },
            { "key": "ctrl+1", "command": "quote\"d" },
            { "key": "shift+[Digit1]", "command": "e" }
        ]"#,
    )
    .unwrap();
    let mapper = WindowsKeyboardMapper::new(TableLayout::new(vec![('=', '+')]));
    assert_eq!(
        shortcuts.parse_shortcuts(&mapper),
        vec![
            pair("shift+1", "Unable to parse keystroke: Failed to get vkey from char: 1"),
            pair("nothing+1", "Unable to parse keystroke"),
            pair("ctrl+1", "Unable to parse command: quote\"d"),
            pair("shift+[Digit1]", ENCODING),
        ]
    );
}

#[test]
fn an_export_is_one_section_of_bindings() {
    let shortcuts =
        VsCodeShortcuts::from_str(r#"[{ "key": "ctrl+a", "command": "cmd1", "when": "x" }]"#).unwrap();
    assert_eq!(
        shortcuts.to_json(),
        "[\n  {\n    \"bindings\": {\n      \"ctrl+a\": \"cmd1\"\n    }\n  }\n]"
    );
    let none = VsCodeShortcuts::from_str("[]").unwrap();
    assert_eq!(none.to_json(), "[\n  {\n    \"bindings\": {}\n  }\n]");
}

#[test]
fn an_export_keeps_commands_of_any_kind_and_the_later_of_two() {
    let shortcuts = VsCodeShortcuts::from_str(
        r#"[
            { "key": "ctrl+b", "command": "first" },
            { "key": "ctrl+a", "command": ["x", { "y": 1.5 }, null, -2] },
            { "key": "ctrl+b", "command": "second", "when": "z" },
            { "key": "ctrl+c" },
            { "key": 5, "command": "lost" },
            { "command": "lost" },
            { "key": "ctrl+b" }
        ]"#,
    )
    .unwrap();
    let bindings = bindings_of(&shortcuts.to_json());
    let expected: serde_json::Value =
        serde_json::from_str(r#"{ "ctrl+a": ["x", { "y": 1.5 }, null, -2], "ctrl+b": "second" }"#).unwrap();
    assert_eq!(serde_json::Value::Object(bindings), expected);
}

#[test]
fn an_export_read_again_keeps_the_commands_and_drops_the_conditions() {
    let shortcuts = VsCodeShortcuts::from_str(
        r#"[
            { "key": "ctrl+shift+=", "command": "list.focusFirst", "when": "listFocus" },
            { "key": "alt+f4", "command": "list.clear", "when": "editorTextFocus && !inDebug" },
            { "key": "ctrl+k", "command": "list.select" }
        ]"#,
    )
    .unwrap();
    let before = shortcuts.entries();
    assert!(before.iter().any(|e| e.when.is_some()));

    let exported = shortcuts.clone().to_json();
    assert!(!exported.contains("when"));
    assert!(!exported.contains("listFocus"));
    let bindings = bindings_of(&exported);
    assert_eq!(bindings.len(), 3);

    let mut listed = String::from("[");
    for (key, command) in bindings.iter() {
        let mut record = serde_json::Map::new();
        record.insert("key".to_string(), serde_json::Value::String(key.clone()));
        record.insert("command".to_string(), command.clone());
        listed.push_str(&serde_json::to_string(&record).unwrap());
        listed.push(',');
    }
    listed.push(']');
    let again = VsCodeShortcuts::from_str(&listed).unwrap();
    let after = again.entries();

    assert_eq!(after.len(), before.len());
    for e in &before {
        assert!(e.command.is_some());
        assert!(after.contains(&entry(&e.key, e.command.as_deref(), None)));
    }
    assert!(after.iter().all(|e| e.when.is_none()));
    assert_eq!(again.to_json(), exported);
}

#[test]
fn settings_are_read_leniently() {
    let settings = VsCodeSettings::from_str(
        r#"{
            // the font
            "editor.fontFamily": "Fira Code",
            "editor.minimap.enabled": false,
            "editor.tabSize": 4,
        }"#,
    )
    .unwrap();
    assert_eq!(settings.read_string("editor.fontFamily"), Some("Fira Code"));
    assert_eq!(settings.read_bool("editor.minimap.enabled"), Some(false));
    assert_eq!(settings.read_value("editor.tabSize").and_then(|v| v.as_u64()), Some(4));
    assert_eq!(VsCodeSettings::from_str("{}").unwrap().read_value("a"), None);
}

#[test]
fn what_is_no_object_is_refused() {
    for content in ["", "[]", "1", "{", "{\"a\"}", "\"a\""] {
        let error = match VsCodeSettings::from_str(content) {
            Ok(_) => panic!("read settings from {:?}", content),
            Err(e) => e,
        };
        assert!(!error.message.is_empty());
    }
}

fn sample() -> VsCodeSettings {
    VsCodeSettings::from_str(
        r#"{
            "text": "dark",
            "empty": "",
            "yes": true,
            "no": false,
            "zero": 0,
            "small": 42,
            "wide": 4294967297,
            "most": 18446744073709551615,
            "negative": -1,
            "half": 0.5,
            "whole": 2.0,
            "nothing": null,
            "list": ["dark"],
            "nested": { "text": "light" }
        }"#,
    )
    .unwrap()
}

#[test]
fn a_setting_is_read_by_its_kind() {
    let s = sample();
    assert_eq!(s.read_value("text"), Some(&serde_json::Value::String("dark".to_string())));
    assert_eq!(s.read_value("nothing"), Some(&serde_json::Value::Null));
    assert_eq!(s.read_value("missing"), None);
    assert_eq!(s.read_value("Text"), None);
    assert_eq!(s.read_string("text"), Some("dark"));
    assert_eq!(s.read_string("empty"), Some(""));
    for key in ["yes", "small", "nothing", "list", "nested", "missing"] {
        assert_eq!(s.read_string(key), None);
    }
    assert_eq!(s.read_bool("yes"), Some(true));
    assert_eq!(s.read_bool("no"), Some(false));
    for key in ["text", "zero", "nothing", "missing"] {
        assert_eq!(s.read_bool(key), None);
    }
}

#[test]
fn a_text_setting_is_taken_where_it_is_a_string() {
    let s = sample();
    let mut setting = Some("old".to_string());
    s.string_setting("text", &mut setting);
    assert_eq!(setting, Some("dark".to_string()));
    s.string_setting("empty", &mut setting);
    assert_eq!(setting, Some("".to_string()));
    for key in ["yes", "small", "nothing", "list", "missing"] {
        let mut setting = Some("old".to_string());
        s.string_setting(key, &mut setting);
        assert_eq!(setting, Some("old".to_string()));
        let mut setting = None;
        s.string_setting(key, &mut setting);
        assert_eq!(setting, None);
    }
}

#[test]
fn a_boolean_setting_is_taken_where_it_is_a_boolean() {
    let s = sample();
    let mut setting = None;
    s.bool_setting("yes", &mut setting);
    assert_eq!(setting, Some(true));
    s.bool_setting("no", &mut setting);
    assert_eq!(setting, Some(false));
    for key in ["text", "zero", "nothing", "missing"] {
        let mut setting = Some(true);
        s.bool_setting(key, &mut setting);
        assert_eq!(setting, Some(true));
    }
}

#[test]
fn a_number_setting_is_taken_where_it_is_a_whole_number() {
    let s = sample();
    let mut wide = None;
    s.u64_setting("small", &mut wide);
    assert_eq!(wide, Some(42));
    s.u64_setting("most", &mut wide);
    assert_eq!(wide, Some(u64::MAX));
    s.u64_setting("zero", &mut wide);
    assert_eq!(wide, Some(0));
    for key in ["negative", "half", "whole", "text", "yes", "missing"] {
        let mut wide = Some(7u64);
        s.u64_setting(key, &mut wide);
        assert_eq!(wide, Some(7));
        let mut narrow = Some(7u32);
        s.u32_setting(key, &mut narrow);
        assert_eq!(narrow, Some(7));
        let mut size = Some(7usize);
        s.usize_setting(key, &mut size);
        assert_eq!(size, Some(7));
    }
}

#[test]
fn a_narrow_number_setting_keeps_the_low_bits() {
    let s = sample();
    let mut narrow = None;
    s.u32_setting("small", &mut narrow);
    assert_eq!(narrow, Some(42));
    s.u32_setting("wide", &mut narrow);
    assert_eq!(narrow, Some(1));
    s.u32_setting("most", &mut narrow);
    assert_eq!(narrow, Some(u32::MAX));
}

#[test]
fn a_size_setting_is_taken_where_it_fits() {
    let s = sample();
    let mut size = None;
    s.usize_setting("small", &mut size);
    assert_eq!(size, Some(42));
    s.usize_setting("wide", &mut size);
    if usize::BITS >= 64 {
        assert_eq!(size, Some(4294967297));
    } else {
        assert_eq!(size, Some(42));
    }
}

#[test]
fn a_setting_of_some_kind_is_made_from_its_text() {
    let s = sample();
    let theme = |text: &str| match text {
        "dark" => Some(1u8),
        "light" => Some(2u8),
        _ => None,
    };
    let mut setting = None;
    s.enum_setting("text", &mut setting, theme);
    assert_eq!(setting, Some(1));
    let mut setting = Some(9);
    s.enum_setting("empty", &mut setting, theme);
    assert_eq!(setting, Some(9));
    s.enum_setting("yes", &mut setting, theme);
    assert_eq!(setting, Some(9));
    s.enum_setting("missing", &mut setting, theme);
    assert_eq!(setting, Some(9));
    s.enum_setting("text", &mut setting, theme);
    assert_eq!(setting, Some(1));
}
