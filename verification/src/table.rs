//! A keyboard layout held in memory as a table of keys.

use vstd::prelude::*;
use crate::error::KeyErrorView;
use crate::keyboard::{
    first_unit, first_utf16_unit, high_byte, low_byte, no_translation, required_modifiers,
    shift_only, shifted_key, utf16_lossy, written, KeyboardTables, Translation, KEY_DOWN,
    NO_MAPPING, SHIFT_KEY,
};
use crate::keystroke::{lemma_immutable_key_is_named, Modifiers};
use crate::text::{is_ascii_letter, is_control};

verus! {

/// A layout given by a table. The entry at place `i` is the key with the
/// virtual-key code `i`: the character it produces alone, and the character it
/// produces with Shift held down. Only the first 256 entries can be typed.
#[derive(Clone, Debug, PartialEq, Eq)]
pub struct TableLayout {
    pub keys: Vec<(char, char)>,
}

/// The packed scan result for `unit` at the key `entry` with the code `index`,
/// if the key produces that unit, alone or with Shift.
pub open spec fn scan_entry(entry: (char, char), index: int, unit: u16) -> Option<i16> {
    if entry.0 as u32 == unit as u32 {
        Some(index as i16)
    } else if entry.1 as u32 == unit as u32 {
        Some((index + 0x100) as i16)
    } else {
        None
    }
}

/// The packed scan result of the first key of `keys`, from place `from` on,
/// that produces `unit`.
pub open spec fn table_scan(keys: Seq<(char, char)>, unit: u16, from: int) -> i16
    decreases keys.len() - from,
{
    if from < 0 || from >= keys.len() || from >= 256 {
        NO_MAPPING
    } else {
        match scan_entry(keys[from], from, unit) {
            Some(packed) => packed,
            None => table_scan(keys, unit, from + 1),
        }
    }
}

/// The translation that writes the UTF-16 units of `c`.
pub open spec fn translation_of_char(c: char) -> Translation {
    if (c as u32) < 0x10000 {
        Translation { count: 1, buffer: [c as u16, 0u16, 0u16, 0u16] }
    } else {
        Translation {
            count: 2,
            buffer: [first_unit(c), (0xDC00 + ((c as u32) - 0x10000) % 0x400) as u16, 0u16, 0u16],
        }
    }
}

impl KeyboardTables for TableLayout {
    open spec fn key_scan_of(&self, unit: u16) -> i16 {
        table_scan(self.keys@, unit, 0)
    }

    open spec fn scan_code_of(&self, virtual_key: u32) -> u32 {
        virtual_key
    }

    open spec fn translation_of(&self, virtual_key: u32, scan_code: u32, state: Seq<u8>) -> Translation {
        if virtual_key < self.keys@.len() {
            if state.len() == 256 && state[SHIFT_KEY as int] & KEY_DOWN != 0 {
                translation_of_char(self.keys@[virtual_key as int].1)
            } else {
                translation_of_char(self.keys@[virtual_key as int].0)
            }
        } else {
            no_translation()
        }
    }

    fn key_scan(&self, unit: u16) -> (r: i16) {
        let mut i: usize = 0;
        while i < self.keys.len() && i < 256
            invariant
                i <= self.keys.len(),
                i <= 256,
                table_scan(self.keys@, unit, 0) == table_scan(self.keys@, unit, i as int),
            decreases self.keys.len() - i,
        {
            let entry = self.keys[i];
            if entry.0 as u32 == unit as u32 {
                return i as i16;
            }
            if entry.1 as u32 == unit as u32 {
                return (i as i16) + 0x100;
            }
            i = i + 1;
        }
        NO_MAPPING
    }

    fn scan_code(&self, virtual_key: u32) -> (r: u32) {
        virtual_key
    }

    fn translate(&self, virtual_key: u32, scan_code: u32, state: &[u8; 256]) -> (r: Translation) {
        if (virtual_key as usize) < self.keys.len() {
            let entry = self.keys[virtual_key as usize];
            if state[SHIFT_KEY] & KEY_DOWN != 0 {
                translate_char(entry.1)
            } else {
                translate_char(entry.0)
            }
        } else {
            Translation { count: 0, buffer: [0u16, 0u16, 0u16, 0u16] }
        }
    }
}

/// The translation that writes the UTF-16 units of `c`.
pub fn translate_char(c: char) -> (r: Translation)
    ensures
        r == translation_of_char(c),
{
    let n: u32 = c as u32;
    if n < 0x10000 {
        Translation { count: 1, buffer: [n as u16, 0u16, 0u16, 0u16] }
    } else {
        Translation {
            count: 2,
            buffer: [first_utf16_unit(c), (0xDC00 + (n - 0x10000) % 0x400) as u16, 0u16, 0u16],
        }
    }
}

impl TableLayout {
    /// A layout with the given keys.
    pub fn new(keys: Vec<(char, char)>) -> (r: Self)
        ensures
            r.keys == keys,
    {
        TableLayout { keys }
    }
}

/// The scan of a table finds the first key that produces the unit.
pub proof fn lemma_table_scan_finds(keys: Seq<(char, char)>, unit: u16, from: int, at: int)
    requires
        0 <= from <= at < keys.len(),
        at < 256,
        forall|j: int| from <= j < at ==> scan_entry(#[trigger] keys[j], j, unit) is None,
        scan_entry(keys[at], at, unit) is Some,
    ensures
        Some(table_scan(keys, unit, from)) == scan_entry(keys[at], at, unit),
    decreases at - from,
{
    if from < at {
        lemma_table_scan_finds(keys, unit, from + 1, at);
    }
}

/// Two characters with the same code are the same character, and a
/// character below U+10000 is its own first unit.
pub proof fn lemma_char_codes(a: char, b: char)
    ensures
        (a as u32 == b as u32) <==> a == b,
        (a as u32) < 0x10000 ==> first_unit(a) as u32 == a as u32,
{
}

/// The units that a table writes for a character read back as that
/// character.
pub proof fn lemma_translation_reads_back(c: char)
    ensures
        utf16_lossy(written(translation_of_char(c))) == seq![c],
{
    let t = translation_of_char(c);
    let n = c as u32;
    if n < 0x10000 {
        let units = written(t);
        assert(units =~= seq![c as u16]);
        assert(units.skip(1) =~= Seq::<u16>::empty());
        assert(utf16_lossy(units.skip(1)) =~= Seq::<char>::empty());
        assert((c as u16) as char == c);
        assert(utf16_lossy(units) =~= seq![c]);
    } else {
        let high = first_unit(c);
        let low = (0xDC00 + (n - 0x10000) % 0x400) as u16;
        let units = written(t);
        assert(units =~= seq![high, low]);
        assert(units.skip(2) =~= Seq::<u16>::empty());
        assert(utf16_lossy(units.skip(2)) =~= Seq::<char>::empty());
        assert(high == 0xD800 + (n - 0x10000) / 0x400);
        assert(low == 0xDC00 + (n - 0x10000) % 0x400);
        assert(0x10000 + (high - 0xD800) * 0x400 + (low - 0xDC00) == n);
        assert((0x10000 + (high - 0xD800) * 0x400 + (low - 0xDC00)) as char == c);
        assert(utf16_lossy(units) =~= seq![c]);
    }
}

/// A table shifts a key to the character that the table gives for it: where
/// a key is the first of the table to produce a character, produces it without
/// Shift, and the character is no letter, that character is shifted to what
/// the key produces with Shift, unless this is a control character.
pub proof fn lemma_table_shifts_key(layout: &TableLayout, at: int)
    requires
        0 <= at < layout.keys@.len(),
        at < 256,
        (layout.keys@[at].0 as u32) < 0x10000,
        forall|j: int|
            0 <= j < at ==> (#[trigger] layout.keys@[j]).0 != layout.keys@[at].0 && layout.keys@[j].1
                != layout.keys@[at].0,
        !is_ascii_letter(layout.keys@[at].0),
        !is_control(layout.keys@[at].1),
    ensures
        shifted_key(layout, seq![layout.keys@[at].0]) == Ok::<Seq<char>, KeyErrorView>(
            seq![layout.keys@[at].1],
        ),
{
    let keys = layout.keys@;
    let plain = keys[at].0;
    let shifted = keys[at].1;
    let key = seq![plain];
    let unit = first_unit(plain);
    if crate::keystroke::immutable_key(key) {
        lemma_immutable_key_is_named(key);
    }
    lemma_char_codes(plain, plain);
    assert forall|j: int| 0 <= j < at implies scan_entry(#[trigger] keys[j], j, unit) is None by {
        lemma_char_codes(keys[j].0, plain);
        lemma_char_codes(keys[j].1, plain);
    }
    lemma_table_scan_finds(keys, unit, 0, at);
    let packed = at as i16;
    assert(table_scan(keys, unit, 0) == packed);
    assert(high_byte(packed) == 0 && low_byte(packed) == packed) by (bit_vector)
        requires
            0 <= packed < 256,
    ;
    assert(required_modifiers(0i8) == Modifiers::none()) by {
        assert(0i8 & 1 == 0 && 0i8 & 2 == 0 && 0i8 & 4 == 0) by (bit_vector);
    }
    assert(KEY_DOWN & KEY_DOWN != 0) by (bit_vector);
    assert(shift_only()[SHIFT_KEY as int] == KEY_DOWN);
    lemma_translation_reads_back(shifted);
}

/// What the system said of one virtual key.
#[derive(Clone, Copy, Debug, PartialEq, Eq)]
pub struct KeySnapshot {
    /// The scan code of the key.
    pub scan_code: u32,
    /// What the key writes while Shift, and nothing else, is held down.
    pub shifted: Translation,
}

/// The tables of a layout as they were read from the system at one moment.
#[derive(Clone, Debug, PartialEq, Eq)]
pub struct LayoutSnapshot {
    /// The packed scan result of every UTF-16 unit, from unit 0 on. A unit
    /// beyond the end of the list has no mapping.
    pub scans: Vec<i16>,
    /// What the system said of every virtual key, from key 0 on. A key
    /// beyond the end of the list has the scan code 0 and writes nothing.
    pub keys: Vec<KeySnapshot>,
}

impl KeyboardTables for LayoutSnapshot {
    open spec fn key_scan_of(&self, unit: u16) -> i16 {
        if unit < self.scans@.len() {
            self.scans@[unit as int]
        } else {
            NO_MAPPING
        }
    }

    open spec fn scan_code_of(&self, virtual_key: u32) -> u32 {
        if virtual_key < self.keys@.len() {
            self.keys@[virtual_key as int].scan_code
        } else {
            0
        }
    }

    open spec fn translation_of(&self, virtual_key: u32, scan_code: u32, state: Seq<u8>) -> Translation {
        if virtual_key < self.keys@.len() && state == shift_only() {
            self.keys@[virtual_key as int].shifted
        } else {
            no_translation()
        }
    }

    fn key_scan(&self, unit: u16) -> (r: i16) {
        if (unit as usize) < self.scans.len() {
            self.scans[unit as usize]
        } else {
            NO_MAPPING
        }
    }

    fn scan_code(&self, virtual_key: u32) -> (r: u32) {
        if (virtual_key as usize) < self.keys.len() {
            self.keys[virtual_key as usize].scan_code
        } else {
            0
        }
    }

    fn translate(&self, virtual_key: u32, scan_code: u32, state: &[u8; 256]) -> (r: Translation) {
        if (virtual_key as usize) < self.keys.len() && is_shift_only(state) {
            self.keys[virtual_key as usize].shifted
        } else {
            Translation { count: 0, buffer: [0u16, 0u16, 0u16, 0u16] }
        }
    }
}

/// Whether `state` holds Shift down and nothing else.
pub fn is_shift_only(state: &[u8; 256]) -> (r: bool)
    ensures
        r == (state@ == shift_only()),
{
    let mut i: usize = 0;
    while i < 256
        invariant
            i <= 256,
            forall|j: int| 0 <= j < i ==> state@[j] == shift_only()[j],
        decreases 256 - i,
    {
        let expected: u8 = if i == SHIFT_KEY {
            KEY_DOWN
        } else {
            0
        };
        if state[i] != expected {
            assert(state@[i as int] != shift_only()[i as int]);
            return false;
        }
        i = i + 1;
    }
    assert(state@ =~= shift_only());
    true
}

impl LayoutSnapshot {
    /// The snapshot with the given tables.
    pub fn new(scans: Vec<i16>, keys: Vec<KeySnapshot>) -> (r: Self)
        ensures
            r.scans == scans,
            r.keys == keys,
    {
        LayoutSnapshot { scans, keys }
    }
}

} // verus!
