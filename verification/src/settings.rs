//! The settings of the other editor, read field by field.

use vstd::prelude::*;
use crate::error::InvalidJson;
use crate::fields::{bool_field, field_bool, field_text, field_u64, text_field, u64_field};
use crate::json::{error_text, fields_of, json_of, lenient_object, object_get, read_object, Json};

verus! {

/// A settings document: one JSON object, a field for every setting.
pub struct VsCodeSettings {
    content: serde_json::Map<String, serde_json::Value>,
}

impl View for VsCodeSettings {
    type V = Map<Seq<char>, Json>;

    closed spec fn view(&self) -> Map<Seq<char>, Json> {
        fields_of(self.content)
    }
}

impl VsCodeSettings {
    /// Reads a settings document. It succeeds exactly where the lenient
    /// reader finds one JSON object in `content`.
    pub fn from_str(content: &str) -> (r: Result<Self, InvalidJson>)
        ensures
            match r {
                Ok(settings) => lenient_object(content@) == Some(settings@),
                Err(_) => lenient_object(content@) is None,
            },
    {
        match read_object(content) {
            Ok(content) => Ok(VsCodeSettings { content }),
            Err(e) => Err(InvalidJson { message: error_text(&e) }),
        }
    }

    /// The value of `setting`, where the document has it.
    pub fn read_value(&self, setting: &str) -> (r: Option<&serde_json::Value>)
        ensures
            match r {
                Some(value) => self@.contains_key(setting@) && json_of(*value) == self@[setting@],
                None => !self@.contains_key(setting@),
            },
    {
        object_get(&self.content, setting)
    }

    /// The text of `setting`, where the document has it as a string.
    pub fn read_string(&self, setting: &str) -> (r: Option<&str>)
        ensures
            match r {
                Some(text) => text_field(self@, setting@) == Some(text@),
                None => text_field(self@, setting@) is None,
            },
    {
        field_text(&self.content, setting)
    }

    /// The truth value of `setting`, where the document has it as a boolean.
    pub fn read_bool(&self, setting: &str) -> (r: Option<bool>)
        ensures
            r == bool_field(self@, setting@),
    {
        field_bool(&self.content, setting)
    }

    /// Sets `setting` to the text of `key`, where the document has it as a
    /// string; else `setting` stays as it is.
    pub fn string_setting(&self, key: &str, setting: &mut Option<String>)
        ensures
            match text_field(self@, key@) {
                Some(text) => *final(setting) matches Some(s) && s@ == text,
                None => *final(setting) == *old(setting),
            },
    {
        if let Some(s) = field_text(&self.content, key) {
            *setting = Some(s.to_owned())
        }
    }

    /// Sets `setting` to the truth value of `key`, where the document has it
    /// as a boolean; else `setting` stays as it is.
    pub fn bool_setting(&self, key: &str, setting: &mut Option<bool>)
        ensures
            *final(setting) == match bool_field(self@, key@) {
                Some(b) => Some(b),
                None => *old(setting),
            },
    {
        if let Some(s) = field_bool(&self.content, key) {
            *setting = Some(s)
        }
    }

    /// Sets `setting` to the low 32 bits of the number of `key`, where the
    /// document has it as a whole number that is not negative; else `setting`
    /// stays as it is.
    pub fn u32_setting(&self, key: &str, setting: &mut Option<u32>)
        ensures
            *final(setting) == match u64_field(self@, key@) {
                Some(n) => Some(n as u32),
                None => *old(setting),
            },
    {
        if let Some(s) = field_u64(&self.content, key) {
            *setting = Some(#[verifier::truncate] (s as u32))
        }
    }

    /// Sets `setting` to the number of `key`, where the document has it as a
    /// whole number that is not negative; else `setting` stays as it is.
    pub fn u64_setting(&self, key: &str, setting: &mut Option<u64>)
        ensures
            *final(setting) == match u64_field(self@, key@) {
                Some(n) => Some(n),
                None => *old(setting),
            },
    {
        if let Some(s) = field_u64(&self.content, key) {
            *setting = Some(s)
        }
    }

    /// Sets `setting` to the number of `key`, where the document has it as a
    /// whole number that is not negative and a `usize` can hold it; else
    /// `setting` stays as it is.
    pub fn usize_setting(&self, key: &str, setting: &mut Option<usize>)
        ensures
            *final(setting) == match u64_field(self@, key@) {
                Some(n) if n <= usize::MAX => Some(n as usize),
                _ => *old(setting),
            },
    {
        if let Some(s) = field_u64(&self.content, key) {
            if s <= usize::MAX as u64 {
                *setting = Some(s as usize)
            }
        }
    }

    /// Sets `setting` to what `f` makes of the text of `key`, where the
    /// document has it as a string and `f` makes something of it; else
    /// `setting` stays as it is.
    pub fn enum_setting<T, F: FnOnce(&str) -> Option<T>>(
        &self,
        key: &str,
        setting: &mut Option<T>,
        f: F,
    )
        requires
            forall|s: &str| call_requires(f, (s,)),
        ensures
            match text_field(self@, key@) {
                Some(text) => exists|s: &str, made: Option<T>|
                    s@ == text && call_ensures(f, (s,), made) && *final(setting) == match made {
                        Some(value) => Some(value),
                        None => *old(setting),
                    },
                None => *final(setting) == *old(setting),
            },
    {
        if let Some(text) = field_text(&self.content, key) {
            if let Some(s) = f(text) {
                *setting = Some(s)
            }
        }
    }
}

} // verus!
