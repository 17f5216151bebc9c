//! Modifiers, keystrokes, and the format in which key combinations are written.
//!
//! A combination is a list of tokens joined by one separator character. Every
//! token but the last names a modifier, in any mix of capitals and small
//! letters; the last token is the key, taken as it stands.

use vstd::prelude::*;
use vstd::string::StringExecFns;
use crate::text::{
    ascii_letter, chars_eq, chars_of, eq_lowered, is_ascii_letter, lower_text, slice_of, text_of,
};

verus! {

/// The modifier keys that a keystroke may hold down.
#[derive(Clone, Copy, Debug, PartialEq, Eq, Structural, Hash)]
pub struct Modifiers {
    pub control: bool,
    pub alt: bool,
    pub shift: bool,
    pub platform: bool,
}

/// One of the four modifier keys.
#[derive(Clone, Copy, Debug, PartialEq, Eq, Structural, Hash)]
pub enum ModifierKey {
    Control,
    Alt,
    Shift,
    Platform,
}

impl Modifiers {
    /// No modifier held down.
    pub open spec fn none() -> Modifiers {
        Modifiers { control: false, alt: false, shift: false, platform: false }
    }

    /// `self` with `key` held down as well.
    pub open spec fn with(self, key: ModifierKey) -> Modifiers {
        match key {
            ModifierKey::Control => Modifiers { control: true, ..self },
            ModifierKey::Alt => Modifiers { alt: true, ..self },
            ModifierKey::Shift => Modifiers { shift: true, ..self },
            ModifierKey::Platform => Modifiers { platform: true, ..self },
        }
    }

    /// Whether `key` is held down in `self`.
    pub open spec fn holds(self, key: ModifierKey) -> bool {
        match key {
            ModifierKey::Control => self.control,
            ModifierKey::Alt => self.alt,
            ModifierKey::Shift => self.shift,
            ModifierKey::Platform => self.platform,
        }
    }

    /// Whether any modifier is held down.
    pub fn modified(&self) -> (r: bool)
        ensures
            r == (*self != Modifiers::none()),
    {
        self.control || self.alt || self.shift || self.platform
    }

    /// `self` with `key` held down as well.
    pub fn pressing(self, key: ModifierKey) -> (r: Modifiers)
        ensures
            r == self.with(key),
    {
        match key {
            ModifierKey::Control => Modifiers { control: true, ..self },
            ModifierKey::Alt => Modifiers { alt: true, ..self },
            ModifierKey::Shift => Modifiers { shift: true, ..self },
            ModifierKey::Platform => Modifiers { platform: true, ..self },
        }
    }
}

impl Default for Modifiers {
    fn default() -> (r: Modifiers)
        ensures
            r == Modifiers::none(),
    {
        Modifiers { control: false, alt: false, shift: false, platform: false }
    }
}

/// A key together with the modifiers held down while it is pressed.
#[derive(Clone, Debug, PartialEq, Eq, Hash)]
pub struct Keystroke {
    pub modifiers: Modifiers,
    pub key: String,
}

/// What a [`Keystroke`] is: its modifiers and the characters of its key.
pub struct KeystrokeView {
    pub modifiers: Modifiers,
    pub key: Seq<char>,
}

impl View for Keystroke {
    type V = KeystrokeView;

    open spec fn view(&self) -> KeystrokeView {
        KeystrokeView { modifiers: self.modifiers, key: self.key@ }
    }
}

/// A combination that does not follow the format.
#[derive(Clone, Debug, PartialEq, Eq)]
pub struct InvalidKeystroke {
    pub keystroke: String,
}

/// The place of the first `sep` in `s`, or the length of `s` where it holds none.
pub open spec fn first_separator(s: Seq<char>, sep: char) -> int
    decreases s.len(),
{
    if s.len() == 0 || s[0] == sep {
        0
    } else {
        1 + first_separator(s.skip(1), sep)
    }
}

/// The tokens of `s`: the stretches between one `sep` and the next. There is
/// always at least one token, and a token may be empty.
pub open spec fn split(s: Seq<char>, sep: char) -> Seq<Seq<char>>
    decreases s.len(),
{
    let i = first_separator(s, sep);
    if 0 <= i < s.len() {
        seq![s.take(i)] + split(s.skip(i + 1), sep)
    } else {
        seq![s]
    }
}

/// The modifier that `token` names, whatever the case of its letters.
pub open spec fn modifier_named(token: Seq<char>) -> Option<ModifierKey> {
    let t = lower_text(token);
    if t == "ctrl"@ {
        Some(ModifierKey::Control)
    } else if t == "alt"@ {
        Some(ModifierKey::Alt)
    } else if t == "shift"@ {
        Some(ModifierKey::Shift)
    } else if t == "cmd"@ || t == "super"@ || t == "win"@ || t == "meta"@ {
        Some(ModifierKey::Platform)
    } else {
        None
    }
}

/// Whether one of `tokens` names the modifier `key`.
pub open spec fn names_modifier(tokens: Seq<Seq<char>>, key: ModifierKey) -> bool {
    exists|i: int| 0 <= i < tokens.len() && #[trigger] modifier_named(tokens[i]) == Some(key)
}

/// The modifiers that `tokens` name between them.
pub open spec fn modifiers_of(tokens: Seq<Seq<char>>) -> Modifiers {
    Modifiers {
        control: names_modifier(tokens, ModifierKey::Control),
        alt: names_modifier(tokens, ModifierKey::Alt),
        shift: names_modifier(tokens, ModifierKey::Shift),
        platform: names_modifier(tokens, ModifierKey::Platform),
    }
}

/// Whether each of `tokens` names a modifier.
pub open spec fn all_modifiers(tokens: Seq<Seq<char>>) -> bool {
    forall|i: int| 0 <= i < tokens.len() ==> (#[trigger] modifier_named(tokens[i])) is Some
}

/// The keystroke that the combination `source` stands for, if it follows the
/// format: the last token is the key and must not be empty, and every token
/// before it names a modifier.
pub open spec fn parsed(source: Seq<char>, sep: char) -> Option<KeystrokeView> {
    let tokens = split(source, sep);
    let key = tokens.last();
    if key.len() > 0 && all_modifiers(tokens.drop_last()) {
        Some(KeystrokeView { modifiers: modifiers_of(tokens.drop_last()), key })
    } else {
        None
    }
}

/// Whether `key` is a single ASCII letter.
pub open spec fn alphabetic_key(key: Seq<char>) -> bool {
    key.len() == 1 && is_ascii_letter(key[0])
}

/// The names of the keys that produce no character, so that Shift leaves them
/// as they are: function keys, navigation and editing keys, and the modifier
/// keys themselves.
pub open spec fn immutable_key_names() -> Seq<Seq<char>> {
    seq![
        "f1"@, "f2"@, "f3"@, "f4"@, "f5"@, "f6"@, "f7"@, "f8"@, "f9"@, "f10"@, "f11"@, "f12"@,
        "f13"@, "f14"@, "f15"@, "f16"@, "f17"@, "f18"@, "f19"@, "f20"@, "f21"@, "f22"@, "f23"@,
        "f24"@, "backspace"@, "delete"@, "left"@, "right"@, "up"@, "down"@, "pageup"@,
        "pagedown"@, "insert"@, "home"@, "end"@, "back"@, "forward"@, "escape"@, "space"@,
        "tab"@, "enter"@, "shift"@, "control"@, "alt"@, "platform"@, "cmd"@, "super"@, "win"@,
        "fn"@, "menu"@, "copy"@, "paste"@, "cut"@, "find"@, "open"@, "save"@,
    ]
}

/// Whether `key` is one of the [`immutable_key_names`].
pub open spec fn immutable_key(key: Seq<char>) -> bool {
    immutable_key_names().contains(key)
}

/// How a keystroke is shown: `win-`, `ctrl-`, `shift-` and `alt-`, in this
/// order, for the modifiers held down, then the key.
pub open spec fn displayed(key: Seq<char>, modifiers: Modifiers) -> Seq<char> {
    (if modifiers.platform { "win-"@ } else { Seq::<char>::empty() })
        + (if modifiers.control { "ctrl-"@ } else { Seq::<char>::empty() })
        + (if modifiers.shift { "shift-"@ } else { Seq::<char>::empty() })
        + (if modifiers.alt { "alt-"@ } else { Seq::<char>::empty() })
        + key
}

/// Once no `sep` stands before place `k` of `t`, and one stands there or `t`
/// ends there, `k` is the place of the first separator.
pub proof fn lemma_first_separator(t: Seq<char>, sep: char, k: int)
    requires
        0 <= k <= t.len(),
        forall|j: int| 0 <= j < k ==> t[j] != sep,
        k == t.len() || t[k] == sep,
    ensures
        first_separator(t, sep) == k,
    decreases k,
{
    if k > 0 {
        lemma_first_separator(t.skip(1), sep, k - 1);
    }
}

/// A text always splits into at least one token.
pub proof fn lemma_split_nonempty(s: Seq<char>, sep: char)
    ensures
        split(s, sep).len() >= 1,
    decreases s.len(),
{
    let i = first_separator(s, sep);
    if 0 <= i < s.len() {
        lemma_split_nonempty(s.skip(i + 1), sep);
    }
}

/// One more token that names a modifier adds that modifier, and no other.
pub proof fn lemma_modifiers_push(done: Seq<Seq<char>>, token: Seq<char>, key: ModifierKey)
    requires
        modifier_named(token) == Some(key),
    ensures
        modifiers_of(done.push(token)) == modifiers_of(done).with(key),
        all_modifiers(done) ==> all_modifiers(done.push(token)),
{
    let more = done.push(token);
    assert(modifier_named(more[done.len() as int]) == Some(key));
    assert forall|k: ModifierKey| names_modifier(more, k) == (names_modifier(done, k) || k == key) by {
        if names_modifier(done, k) {
            let i = choose|i: int| 0 <= i < done.len() && #[trigger] modifier_named(done[i]) == Some(k);
            assert(modifier_named(more[i]) == Some(k));
        }
        if names_modifier(more, k) {
            let i = choose|i: int| 0 <= i < more.len() && #[trigger] modifier_named(more[i]) == Some(k);
            if i < done.len() {
                assert(modifier_named(done[i]) == Some(k));
            }
        }
    }
    if all_modifiers(done) {
        assert forall|i: int| 0 <= i < more.len() implies (#[trigger] modifier_named(more[i])) is Some by {
            if i < done.len() {
                assert(modifier_named(done[i]) is Some);
            }
        }
    }
}

fn modifier_of(token: &Vec<char>) -> (r: Option<ModifierKey>)
    ensures
        r == modifier_named(token@),
{
    if eq_lowered(token, "ctrl") {
        Some(ModifierKey::Control)
    } else if eq_lowered(token, "alt") {
        Some(ModifierKey::Alt)
    } else if eq_lowered(token, "shift") {
        Some(ModifierKey::Shift)
    } else if eq_lowered(token, "cmd") || eq_lowered(token, "super") || eq_lowered(token, "win")
        || eq_lowered(token, "meta") {
        Some(ModifierKey::Platform)
    } else {
        None
    }
}

impl Keystroke {
    /// Reads the combination `source`, whose tokens are joined by `separator`.
    ///
    /// Gives the keystroke that [`parsed`] describes, and fails exactly where
    /// `source` does not follow the format.
    pub fn parse_with_separator(source: &str, separator: char) -> (r: Result<
        Keystroke,
        InvalidKeystroke,
    >)
        ensures
            match r {
                Ok(k) => parsed(source@, separator) == Some(k@),
                Err(e) => parsed(source@, separator) is None && e.keystroke@ == source@,
            },
    {
        let chars = chars_of(source);
        let n = chars.len();
        let mut modifiers = Modifiers::default();
        let mut start: usize = 0;
        let mut i: usize = 0;
        let ghost mut done: Seq<Seq<char>> = Seq::empty();
        assert(chars@.skip(0) =~= chars@);
        assert(Seq::<Seq<char>>::empty() + split(chars@, separator) =~= split(chars@, separator));
        while i < n
            invariant
                n == chars.len(),
                chars@ == source@,
                start <= i <= n,
                split(chars@, separator) == done + split(chars@.skip(start as int), separator),
                all_modifiers(done),
                modifiers == modifiers_of(done),
                forall|j: int| start <= j < i ==> chars@[j] != separator,
            decreases n - i,
        {
            if chars[i] == separator {
                let token = slice_of(&chars, start, i);
                let ghost tail = chars@.skip(start as int);
                let ghost rest = split(chars@.skip(i + 1), separator);
                proof {
                    lemma_first_separator(tail, separator, i - start);
                    assert(tail.skip(i - start + 1) =~= chars@.skip(i + 1));
                    assert(tail.take(i - start) =~= token@);
                    assert(split(tail, separator) == seq![token@] + rest);
                    assert(done + (seq![token@] + rest) =~= done.push(token@) + rest);
                }
                match modifier_of(&token) {
                    Some(key) => {
                        proof {
                            lemma_modifiers_push(done, token@, key);
                            done = done.push(token@);
                        }
                        modifiers = modifiers.pressing(key);
                    },
                    None => {
                        proof {
                            let tokens = split(chars@, separator);
                            lemma_split_nonempty(chars@.skip(i + 1), separator);
                            assert(tokens.drop_last()[done.len() as int] == token@);
                            assert(!all_modifiers(tokens.drop_last()));
                        }
                        return Err(InvalidKeystroke { keystroke: source.to_owned() });
                    },
                }
                start = i + 1;
            }
            i = i + 1;
        }
        let ghost tail = chars@.skip(start as int);
        proof {
            lemma_first_separator(tail, separator, n - start);
            assert(split(tail, separator) == seq![tail]);
            assert((done + seq![tail]).drop_last() =~= done);
            assert(tail =~= chars@.subrange(start as int, n as int));
        }
        if start == n {
            return Err(InvalidKeystroke { keystroke: source.to_owned() });
        }
        let key = text_of(&chars, start, n);
        Ok(Keystroke { modifiers, key })
    }
}

/// Every key that produces no character has a name of two characters or
/// more, so that a single character is none of them.
pub proof fn lemma_immutable_key_is_named(key: Seq<char>)
    requires
        immutable_key(key),
    ensures
        key.len() >= 2,
{
    reveal_strlit("f1");
    reveal_strlit("f2");
    reveal_strlit("f3");
    reveal_strlit("f4");
    reveal_strlit("f5");
    reveal_strlit("f6");
    reveal_strlit("f7");
    reveal_strlit("f8");
    reveal_strlit("f9");
    reveal_strlit("f10");
    reveal_strlit("f11");
    reveal_strlit("f12");
    reveal_strlit("f13");
    reveal_strlit("f14");
    reveal_strlit("f15");
    reveal_strlit("f16");
    reveal_strlit("f17");
    reveal_strlit("f18");
    reveal_strlit("f19");
    reveal_strlit("f20");
    reveal_strlit("f21");
    reveal_strlit("f22");
    reveal_strlit("f23");
    reveal_strlit("f24");
    reveal_strlit("backspace");
    reveal_strlit("delete");
    reveal_strlit("left");
    reveal_strlit("right");
    reveal_strlit("up");
    reveal_strlit("down");
    reveal_strlit("pageup");
    reveal_strlit("pagedown");
    reveal_strlit("insert");
    reveal_strlit("home");
    reveal_strlit("end");
    reveal_strlit("back");
    reveal_strlit("forward");
    reveal_strlit("escape");
    reveal_strlit("space");
    reveal_strlit("tab");
    reveal_strlit("enter");
    reveal_strlit("shift");
    reveal_strlit("control");
    reveal_strlit("alt");
    reveal_strlit("platform");
    reveal_strlit("cmd");
    reveal_strlit("super");
    reveal_strlit("win");
    reveal_strlit("fn");
    reveal_strlit("menu");
    reveal_strlit("copy");
    reveal_strlit("paste");
    reveal_strlit("cut");
    reveal_strlit("find");
    reveal_strlit("open");
    reveal_strlit("save");
    let names = immutable_key_names();
    assert forall|i: int| 0 <= i < names.len() implies (#[trigger] names[i]).len() >= 2 by {}
}

/// A letter is none of the keys that produce no character.
pub proof fn lemma_letter_is_mutable(key: Seq<char>)
    requires
        alphabetic_key(key),
    ensures
        !immutable_key(key),
{
    if immutable_key(key) {
        lemma_immutable_key_is_named(key);
    }
}

pub fn is_alphabetic_key(key: &str) -> (r: bool)
    ensures
        r == alphabetic_key(key@),
{
    let chars = chars_of(key);
    chars.len() == 1 && ascii_letter(chars[0])
}

fn immutable_keys() -> (r: Vec<&'static str>)
    ensures
        r@.len() == immutable_key_names().len(),
        forall|i: int| 0 <= i < r@.len() ==> (#[trigger] r@[i])@ == immutable_key_names()[i],
{
    vec![
        "f1", "f2", "f3", "f4", "f5", "f6", "f7", "f8", "f9", "f10", "f11", "f12",
        "f13", "f14", "f15", "f16", "f17", "f18", "f19", "f20", "f21", "f22", "f23",
        "f24", "backspace", "delete", "left", "right", "up", "down", "pageup",
        "pagedown", "insert", "home", "end", "back", "forward", "escape", "space",
        "tab", "enter", "shift", "control", "alt", "platform", "cmd", "super", "win",
        "fn", "menu", "copy", "paste", "cut", "find", "open", "save",
    ]
}

pub fn is_immutable_key(key: &str) -> (r: bool)
    ensures
        r == immutable_key(key@),
{
    let names = immutable_keys();
    let chars = chars_of(key);
    let mut i: usize = 0;
    while i < names.len()
        invariant
            i <= names.len(),
            chars@ == key@,
            names@.len() == immutable_key_names().len(),
            forall|j: int| 0 <= j < names@.len() ==> (#[trigger] names@[j])@ == immutable_key_names()[j],
            forall|j: int| 0 <= j < i ==> immutable_key_names()[j] != key@,
        decreases names.len() - i,
    {
        let name = chars_of(names[i]);
        if chars_eq(&chars, &name) {
            assert(immutable_key_names()[i as int] == key@);
            return true;
        }
        i = i + 1;
    }
    false
}

/// The text that shows the keystroke made of `key` and `modifiers`.
pub fn display_keystroke(key: &str, modifiers: &Modifiers) -> (display: String)
    ensures
        display@ == displayed(key@, *modifiers),
{
    let mut display = String::new();
    if modifiers.platform {
        display.append("win-");
    }
    if modifiers.control {
        display.append("ctrl-");
    }
    if modifiers.shift {
        display.append("shift-");
    }
    if modifiers.alt {
        display.append("alt-");
    }
    display.append(key);
    assert(display@ =~= displayed(key@, *modifiers));
    display
}

} // verus!
