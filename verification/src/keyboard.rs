//! Key resolution over the translation tables of a keyboard layout.
//!
//! The tables are those of the Windows keyboard interface: a scan that packs
//! a virtual-key code with the modifiers a character needs, the scan code of a
//! virtual key, and the translation of a key under a given keyboard state. A
//! layout hands them out through [`KeyboardTables`]; what is computed from
//! them is stated here over the tables alone.

use vstd::prelude::*;
use crate::error::{KeyError, KeyErrorView};
use crate::keystroke::{
    alphabetic_key, immutable_key, is_alphabetic_key, is_immutable_key, lemma_letter_is_mutable,
    ModifierKey, Modifiers,
};
use crate::text::{chars_of, control_char, is_control, to_upper_ascii, upper_ascii};

verus! {

/// The code of a physical key, whatever character it produces.
#[derive(Clone, Copy, Debug, PartialEq, Eq, Structural, Hash)]
pub struct VirtualKey(pub u16);

/// The outcome of translating a key: how many UTF-16 units were written, or
/// zero or less where the key produces no character, and the buffer they were
/// written to.
#[derive(Clone, Copy, Debug, PartialEq, Eq)]
pub struct Translation {
    pub count: i32,
    pub buffer: [u16; 4],
}

/// The scan result that stands for "no key types this character".
pub const NO_MAPPING: i16 = -1;

/// The place of the Shift key in a keyboard state.
pub const SHIFT_KEY: usize = 0x10;

/// The state of a key that is held down.
pub const KEY_DOWN: u8 = 0x80;

/// The translation tables of one keyboard layout.
///
/// A value stands for one layout and never changes: asked twice for the same
/// thing, it answers the same.
pub trait KeyboardTables {
    /// The packed scan result for a UTF-16 unit: the virtual-key code in the
    /// low byte and the required modifiers in the high byte, or
    /// [`NO_MAPPING`].
    spec fn key_scan_of(&self, unit: u16) -> i16;

    /// The scan code of a virtual key.
    spec fn scan_code_of(&self, virtual_key: u32) -> u32;

    /// What a key produces under a keyboard state of 256 keys.
    spec fn translation_of(&self, virtual_key: u32, scan_code: u32, state: Seq<u8>) -> Translation;

    fn key_scan(&self, unit: u16) -> (r: i16)
        ensures
            r == self.key_scan_of(unit),
    ;

    fn scan_code(&self, virtual_key: u32) -> (r: u32)
        ensures
            r == self.scan_code_of(virtual_key),
    ;

    fn translate(&self, virtual_key: u32, scan_code: u32, state: &[u8; 256]) -> (r: Translation)
        ensures
            r == self.translation_of(virtual_key, scan_code, state@),
    ;
}

/// The first UTF-16 unit of a character: the character itself below U+10000,
/// else its high surrogate.
pub open spec fn first_unit(c: char) -> u16 {
    if (c as u32) < 0x10000 {
        c as u16
    } else {
        (0xD800 + ((c as u32) - 0x10000) / 0x400) as u16
    }
}

/// The high-order byte of a packed scan result.
pub open spec fn high_byte(packed: i16) -> i8 {
    (packed >> 8) as i8
}

/// The low byte of a packed scan result.
pub open spec fn low_byte(packed: i16) -> u8 {
    packed as u8
}

/// The modifiers that a high-order byte asks for: Shift in its lowest bit,
/// Control in the next, Alt in the third.
pub open spec fn required_modifiers(high: i8) -> Modifiers {
    Modifiers {
        shift: high & 1 != 0,
        control: high & 2 != 0,
        alt: high & 4 != 0,
        platform: false,
    }
}

/// The first modifier, in the order Control, Alt, Shift, that is both needed
/// and already held down.
pub open spec fn conflict(need: Modifiers, held: Modifiers) -> Option<ModifierKey> {
    if need.control && held.control {
        Some(ModifierKey::Control)
    } else if need.alt && held.alt {
        Some(ModifierKey::Alt)
    } else if need.shift && held.shift {
        Some(ModifierKey::Shift)
    } else {
        None
    }
}

/// The modifiers of `held` and those of `need` together.
pub open spec fn joined(held: Modifiers, need: Modifiers) -> Modifiers {
    Modifiers {
        control: held.control || need.control,
        alt: held.alt || need.alt,
        shift: held.shift || need.shift,
        platform: held.platform || need.platform,
    }
}

/// The key that types `key` under `layout`, and the modifiers to hold down
/// with it, given those that the caller holds down already.
pub open spec fn resolved<L: KeyboardTables>(layout: &L, key: Seq<char>, held: Modifiers) -> Result<
    (VirtualKey, Modifiers),
    KeyErrorView,
> {
    if key.len() != 1 {
        Err(KeyErrorView::CharacterNotMappable { key })
    } else {
        let packed = layout.key_scan_of(first_unit(key[0]));
        let need = required_modifiers(high_byte(packed));
        if packed == NO_MAPPING {
            Err(KeyErrorView::NoMappingForChar { key })
        } else {
            match conflict(need, held) {
                Some(modifier) => Err(
                    KeyErrorView::ModifierConflict { modifier, key, modifiers: held },
                ),
                None => Ok((VirtualKey(low_byte(packed) as u16), joined(held, need))),
            }
        }
    }
}

/// The modifiers that `layout` needs to type `key`, where `key` is one
/// character and a key of `layout` types it.
pub open spec fn needed<L: KeyboardTables>(layout: &L, key: Seq<char>) -> Option<Modifiers> {
    if key.len() == 1 && layout.key_scan_of(first_unit(key[0])) != NO_MAPPING {
        Some(required_modifiers(high_byte(layout.key_scan_of(first_unit(key[0])))))
    } else {
        None
    }
}

/// What the outcome of shifting a key is, with its texts as sequences of
/// characters.
pub open spec fn shift_view(outcome: Result<String, KeyError>) -> Result<Seq<char>, KeyErrorView> {
    match outcome {
        Ok(text) => Ok(text@),
        Err(e) => Err(e@),
    }
}

/// The keyboard state in which Shift is held down and nothing else.
pub open spec fn shift_only() -> Seq<u8> {
    Seq::new(256, |i: int| if i == SHIFT_KEY { KEY_DOWN } else { 0u8 })
}

/// The UTF-16 units that a translation wrote: none where its count is zero or
/// less, else as many as its count says, and no more than the buffer holds.
pub open spec fn written(t: Translation) -> Seq<u16> {
    if t.count <= 0 {
        Seq::empty()
    } else if t.count >= 4 {
        t.buffer@
    } else {
        t.buffer@.take(t.count as int)
    }
}

/// The text that UTF-16 units stand for, with U+FFFD in place of every
/// surrogate that has no partner.
pub open spec fn utf16_lossy(units: Seq<u16>) -> Seq<char>
    decreases units.len(),
{
    if units.len() == 0 {
        Seq::empty()
    } else if !(0xD800 <= units[0] <= 0xDFFF) {
        seq![units[0] as char] + utf16_lossy(units.skip(1))
    } else if units[0] <= 0xDBFF && units.len() >= 2 && 0xDC00 <= units[1] <= 0xDFFF {
        seq![(0x10000 + (units[0] - 0xD800) * 0x400 + (units[1] - 0xDC00)) as char] + utf16_lossy(
            units.skip(2),
        )
    } else {
        seq!['\u{FFFD}'] + utf16_lossy(units.skip(1))
    }
}

/// What `key` produces under `layout` with Shift held down, where `key` is
/// typed by a key of its own.
pub open spec fn shifted_character<L: KeyboardTables>(layout: &L, key: Seq<char>) -> Result<
    Seq<char>,
    KeyErrorView,
> {
    match resolved(layout, key, Modifiers::none()) {
        Err(e) => Err(e),
        Ok((virtual_key, modifiers)) => {
            if modifiers != Modifiers::none() {
                Err(KeyErrorView::UnexpectedModifiers { key })
            } else {
                let code = virtual_key.0 as u32;
                let text = utf16_lossy(
                    written(layout.translation_of(code, layout.scan_code_of(code), shift_only())),
                );
                if text.len() == 0 || is_control(text[0]) {
                    Err(KeyErrorView::NoShiftedVariant { key })
                } else {
                    Ok(text)
                }
            }
        },
    }
}

/// What `key` becomes when Shift is held down: a key that produces no
/// character stays as it is, a letter becomes its capital, and every other key
/// is looked up in the layout.
pub open spec fn shifted_key<L: KeyboardTables>(layout: &L, key: Seq<char>) -> Result<
    Seq<char>,
    KeyErrorView,
> {
    if immutable_key(key) {
        Ok(key)
    } else if alphabetic_key(key) {
        Ok(seq![upper_ascii(key[0])])
    } else {
        shifted_character(layout, key)
    }
}

/// The translation of a key that produces nothing.
pub open spec fn no_translation() -> Translation {
    Translation { count: 0, buffer: [0u16, 0u16, 0u16, 0u16] }
}

/// `String::from_utf16_lossy` of std: the text of the given UTF-16 units,
/// where every surrogate without a partner is replaced by U+FFFD.
#[verifier::external_body]
fn decode_utf16(units: &Vec<u16>) -> (text: String)
    ensures
        text@ == utf16_lossy(units@),
{
    String::from_utf16_lossy(units.as_slice())
}

/// The keyboard state in which Shift is held down and nothing else.
pub fn shift_only_state() -> (state: [u8; 256])
    ensures
        state@ == shift_only(),
{
    let mut state: [u8; 256] = [0u8; 256];
    state[SHIFT_KEY] = KEY_DOWN;
    assert(state@ =~= shift_only());
    state
}

/// The first UTF-16 unit of `c`.
pub fn first_utf16_unit(c: char) -> (unit: u16)
    ensures
        unit == first_unit(c),
{
    let n: u32 = c as u32;
    if n < 0x10000 {
        n as u16
    } else {
        (0xD800 + (n - 0x10000) / 0x400) as u16
    }
}

/// Tells which modifiers the high-order byte of a packed scan result asks
/// for, as (shift, control, alt).
pub fn get_modifiers(high: i8) -> (r: (bool, bool, bool))
    ensures
        r.0 == required_modifiers(high).shift,
        r.1 == required_modifiers(high).control,
        r.2 == required_modifiers(high).alt,
{
    let shift: i8 = high & 1;
    let ctrl: i8 = (high >> 1) & 1;
    let alt: i8 = (high >> 2) & 1;
    assert(((high >> 1) & 1 != 0) == (high & 2 != 0)) by (bit_vector);
    assert(((high >> 2) & 1 != 0) == (high & 4 != 0)) by (bit_vector);
    (shift != 0, ctrl != 0, alt != 0)
}

/// Finds the key that types the single character `key` under `layout`.
///
/// The modifiers that the character needs are added to `modifiers`. Where
/// one of them is held down already the call fails, and so it does where
/// `key` is not one character or no key types it; `modifiers` then stay as
/// they were.
pub fn get_vkey_from_char<L: KeyboardTables>(layout: &L, key: &str, modifiers: &mut Modifiers) -> (r:
    Result<VirtualKey, KeyError>)
    ensures
        match r {
            Ok(v) => resolved(layout, key@, *old(modifiers)) == Ok::<
                (VirtualKey, Modifiers),
                KeyErrorView,
            >((v, *final(modifiers))),
            Err(e) => resolved(layout, key@, *old(modifiers)) == Err::<
                (VirtualKey, Modifiers),
                KeyErrorView,
            >(e@) && *final(modifiers) == *old(modifiers),
        },
        (r matches Err(KeyError::CharacterNotMappable { .. })) <==> key@.len() != 1,
        r is Err ==> *final(modifiers) == *old(modifiers),
        forall|need: Modifiers, modifier: ModifierKey|
            needed(layout, key@) == Some(need) && need.holds(modifier) && old(modifiers).holds(
                modifier,
            ) ==> (r matches Err(KeyError::ModifierConflict { .. })),
{
    let chars = chars_of(key);
    if chars.len() != 1 {
        return Err(KeyError::CharacterNotMappable { key: key.to_owned() });
    }
    let result = layout.key_scan(first_utf16_unit(chars[0]));
    if result == NO_MAPPING {
        return Err(KeyError::NoMappingForChar { key: key.to_owned() });
    }
    let high: i8 = #[verifier::truncate] ((result >> 8) as i8);
    let low: u8 = #[verifier::truncate] (result as u8);
    let (shift, ctrl, alt) = get_modifiers(high);
    let held = *modifiers;
    if ctrl && held.control {
        return Err(
            KeyError::ModifierConflict {
                modifier: ModifierKey::Control,
                key: key.to_owned(),
                modifiers: held,
            },
        );
    }
    if alt && held.alt {
        return Err(
            KeyError::ModifierConflict {
                modifier: ModifierKey::Alt,
                key: key.to_owned(),
                modifiers: held,
            },
        );
    }
    if shift && held.shift {
        return Err(
            KeyError::ModifierConflict {
                modifier: ModifierKey::Shift,
                key: key.to_owned(),
                modifiers: held,
            },
        );
    }
    if ctrl {
        modifiers.control = true;
    }
    if alt {
        modifiers.alt = true;
    }
    if shift {
        modifiers.shift = true;
    }
    Ok(VirtualKey(low as u16))
}

/// Looks up what the single character `key` becomes under `layout` when
/// Shift is held down.
pub fn get_shifted_character<L: KeyboardTables>(layout: &L, key: &str) -> (r: Result<String, KeyError>)
    ensures
        shift_view(r) == shifted_character(layout, key@),
{
    let mut modifiers = Modifiers::default();
    let virtual_key = match get_vkey_from_char(layout, key, &mut modifiers) {
        Ok(v) => v,
        Err(e) => {
            return Err(e);
        },
    };
    if modifiers.modified() {
        return Err(KeyError::UnexpectedModifiers { key: key.to_owned() });
    }
    let state = shift_only_state();
    let code: u32 = virtual_key.0 as u32;
    let scan_code = layout.scan_code(code);
    let translation = layout.translate(code, scan_code, &state);
    let mut units: Vec<u16> = Vec::new();
    let mut i: usize = 0;
    while i < 4 && (i as i32) < translation.count
        invariant
            i <= 4,
            i <= translation.count || i == 0,
            units@ == translation.buffer@.take(i as int),
        decreases 4 - i,
    {
        units.push(translation.buffer[i]);
        assert(translation.buffer@.take(i + 1) =~= translation.buffer@.take(i as int).push(
            translation.buffer@[i as int],
        ));
        i = i + 1;
    }
    assert(units@ =~= written(translation));
    let candidate = decode_utf16(&units);
    let chars = chars_of(candidate.as_str());
    if chars.len() > 0 && !control_char(chars[0]) {
        return Ok(candidate);
    }
    Err(KeyError::NoShiftedVariant { key: key.to_owned() })
}

/// The shift resolver over the tables of one layout.
pub struct WindowsKeyboardMapper<L: KeyboardTables> {
    pub layout: L,
}

impl<L: KeyboardTables> WindowsKeyboardMapper<L> {
    /// A mapper that reads the tables of `layout`.
    pub fn new(layout: L) -> (r: Self)
        ensures
            r.layout == layout,
    {
        WindowsKeyboardMapper { layout }
    }

    /// What `key` becomes when Shift is held down.
    pub fn get_shifted_key(&self, key: &str) -> (r: Result<String, KeyError>)
        ensures
            shift_view(r) == shifted_key(&self.layout, key@),
            immutable_key(key@) ==> (r matches Ok(text) && text@ == key@),
            alphabetic_key(key@) ==> (r matches Ok(text) && text@ == seq![upper_ascii(key@[0])]),
    {
        proof {
            if alphabetic_key(key@) {
                lemma_letter_is_mutable(key@);
            }
        }
        if is_immutable_key(key) {
            return Ok(key.to_owned());
        }
        if is_alphabetic_key(key) {
            let chars = chars_of(key);
            let mut out = String::new();
            out.push(to_upper_ascii(chars[0]));
            assert(out@ =~= seq![upper_ascii(key@[0])]);
            return Ok(out);
        }
        get_shifted_character(&self.layout, key)
    }
}

/// Under one layout a key is shifted to the same outcome every time: two
/// calls of [`WindowsKeyboardMapper::get_shifted_key`] with the same key give
/// the same text, or fail in the same way.
pub proof fn lemma_shifted_key_deterministic<L: KeyboardTables>(
    layout: &L,
    key: Seq<char>,
    first: Result<String, KeyError>,
    second: Result<String, KeyError>,
)
    requires
        shift_view(first) == shifted_key(layout, key),
        shift_view(second) == shifted_key(layout, key),
    ensures
        shift_view(first) == shift_view(second),
        first is Ok <==> second is Ok,
{
}

} // verus!
