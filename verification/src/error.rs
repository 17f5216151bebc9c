//! The ways in which resolving a key can fail, and how each is reported.

use vstd::prelude::*;
use vstd::string::StringExecFns;
use crate::keystroke::{display_keystroke, displayed, ModifierKey, Modifiers};

verus! {

/// A failure to resolve a key under a keyboard layout.
#[derive(Clone, Debug, PartialEq, Eq)]
pub enum KeyError {
    /// The key is not exactly one character.
    CharacterNotMappable { key: String },
    /// The layout has no key that types the character.
    NoMappingForChar { key: String },
    /// The layout needs `modifier` to type the character, and the caller holds
    /// it down already. `modifiers` are those the caller gave.
    ModifierConflict { modifier: ModifierKey, key: String, modifiers: Modifiers },
    /// The key cannot be typed without a modifier, so it cannot be shifted.
    UnexpectedModifiers { key: String },
    /// The key with Shift held down produces no printable character.
    NoShiftedVariant { key: String },
}

/// A text that is not the JSON document asked for. The message is the
/// reader's own and says where it stopped.
#[derive(Clone, Debug, PartialEq, Eq)]
pub struct InvalidJson {
    pub message: String,
}

/// The keyboard layout in use, or its name, cannot be told.
#[derive(Clone, Copy, Debug, PartialEq, Eq, Structural)]
pub struct LayoutUnavailable;

/// What a [`KeyError`] is, with its texts as sequences of characters.
pub enum KeyErrorView {
    CharacterNotMappable { key: Seq<char> },
    NoMappingForChar { key: Seq<char> },
    ModifierConflict { modifier: ModifierKey, key: Seq<char>, modifiers: Modifiers },
    UnexpectedModifiers { key: Seq<char> },
    NoShiftedVariant { key: Seq<char> },
}

impl View for KeyError {
    type V = KeyErrorView;

    open spec fn view(&self) -> KeyErrorView {
        match self {
            KeyError::CharacterNotMappable { key } => KeyErrorView::CharacterNotMappable {
                key: key@,
            },
            KeyError::NoMappingForChar { key } => KeyErrorView::NoMappingForChar { key: key@ },
            KeyError::ModifierConflict { modifier, key, modifiers } => {
                KeyErrorView::ModifierConflict {
                    modifier: *modifier,
                    key: key@,
                    modifiers: *modifiers,
                }
            },
            KeyError::UnexpectedModifiers { key } => KeyErrorView::UnexpectedModifiers {
                key: key@,
            },
            KeyError::NoShiftedVariant { key } => KeyErrorView::NoShiftedVariant { key: key@ },
        }
    }
}

/// The name of a modifier at the start of a sentence.
pub open spec fn capital_name(modifier: ModifierKey) -> Seq<char> {
    match modifier {
        ModifierKey::Control => "Ctrl"@,
        ModifierKey::Alt => "Alt"@,
        ModifierKey::Shift => "Shift"@,
        ModifierKey::Platform => "Win"@,
    }
}

/// The name of a modifier inside a sentence.
pub open spec fn small_name(modifier: ModifierKey) -> Seq<char> {
    match modifier {
        ModifierKey::Control => "ctrl"@,
        ModifierKey::Alt => "alt"@,
        ModifierKey::Shift => "shift"@,
        ModifierKey::Platform => "win"@,
    }
}

impl KeyErrorView {
    /// The sentence that reports the failure.
    pub open spec fn message(self) -> Seq<char> {
        match self {
            KeyErrorView::CharacterNotMappable { key } => {
                "Key must be a single character, but got: "@ + key
            },
            KeyErrorView::NoMappingForChar { key } => "Failed to get vkey from char: "@ + key,
            KeyErrorView::ModifierConflict { modifier, key, modifiers } => {
                "Error parsing: "@ + displayed(key, modifiers) + ", "@ + capital_name(modifier)
                    + " modifier already set, but "@ + small_name(modifier)
                    + " is required for this key: "@ + key
                    + ", you may be unable to use this shortcut."@
            },
            KeyErrorView::UnexpectedModifiers { key } => {
                "Key is not a single character or has modifiers: "@ + key
            },
            KeyErrorView::NoShiftedVariant { key } => "Failed to get shifted key for: "@ + key,
        }
    }
}

fn capital(modifier: ModifierKey) -> (r: &'static str)
    ensures
        r@ == capital_name(modifier),
{
    match modifier {
        ModifierKey::Control => "Ctrl",
        ModifierKey::Alt => "Alt",
        ModifierKey::Shift => "Shift",
        ModifierKey::Platform => "Win",
    }
}

fn small(modifier: ModifierKey) -> (r: &'static str)
    ensures
        r@ == small_name(modifier),
{
    match modifier {
        ModifierKey::Control => "ctrl",
        ModifierKey::Alt => "alt",
        ModifierKey::Shift => "shift",
        ModifierKey::Platform => "win",
    }
}

fn sentence(start: &str, key: &str) -> (r: String)
    ensures
        r@ == start@ + key@,
{
    let mut out = String::new();
    out.append(start);
    out.append(key);
    assert(out@ =~= start@ + key@);
    out
}

impl KeyError {
    /// The sentence that reports this failure.
    pub fn message(&self) -> (r: String)
        ensures
            r@ == self@.message(),
    {
        match self {
            KeyError::CharacterNotMappable { key } => {
                sentence("Key must be a single character, but got: ", key.as_str())
            },
            KeyError::NoMappingForChar { key } => {
                sentence("Failed to get vkey from char: ", key.as_str())
            },
            KeyError::ModifierConflict { modifier, key, modifiers } => {
                let shown = display_keystroke(key.as_str(), modifiers);
                let mut out = String::new();
                out.append("Error parsing: ");
                out.append(shown.as_str());
                out.append(", ");
                out.append(capital(*modifier));
                out.append(" modifier already set, but ");
                out.append(small(*modifier));
                out.append(" is required for this key: ");
                out.append(key.as_str());
                out.append(", you may be unable to use this shortcut.");
                assert(out@ =~= self@.message());
                out
            },
            KeyError::UnexpectedModifiers { key } => {
                sentence("Key is not a single character or has modifiers: ", key.as_str())
            },
            KeyError::NoShiftedVariant { key } => {
                sentence("Failed to get shifted key for: ", key.as_str())
            },
        }
    }
}

} // verus!
