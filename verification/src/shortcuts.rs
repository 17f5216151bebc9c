//! The key bindings of the other editor, as the list of records it keeps them in.

use vstd::prelude::*;
use crate::commands::{CommandResolver, NamedAction};
use crate::error::InvalidJson;
use crate::fields::{field_text, text_field};
use crate::import::{
    accepted_of, entries_view, import, lemma_every_entry_counted, pairs_view, skipped_of,
    ImportEntry, ImportEntryView,
};
use crate::json::{
    error_text, fields_of, lenient_records, object_get, object_value, pretty_records, read_records,
    records_of, write_pretty, Json,
};
use crate::keyboard::{KeyboardTables, WindowsKeyboardMapper};

verus! {

/// A list of key bindings: JSON objects with a `key`, a `command` and at
/// times a `when`.
#[derive(Debug, Clone)]
pub struct VsCodeShortcuts {
    content: Vec<serde_json::Map<String, serde_json::Value>>,
}

impl View for VsCodeShortcuts {
    type V = Seq<Map<Seq<char>, Json>>;

    closed spec fn view(&self) -> Seq<Map<Seq<char>, Json>> {
        records_of(self.content@)
    }
}

/// The entry that a record stands for: its `key`, which must be a string,
/// and its `command` and its `when` where they are strings. A record without
/// a string for its key binds nothing and stands for no entry.
pub open spec fn entry_of(record: Map<Seq<char>, Json>) -> Option<ImportEntryView> {
    match text_field(record, "key"@) {
        Some(key) => Some(
            ImportEntryView {
                key,
                command: text_field(record, "command"@),
                when: text_field(record, "when"@),
            },
        ),
        None => None,
    }
}

/// The number of records that have a string for their key.
pub open spec fn keyed(records: Seq<Map<Seq<char>, Json>>) -> nat
    decreases records.len(),
{
    if records.len() == 0 {
        0
    } else if text_field(records.last(), "key"@) is Some {
        keyed(records.drop_last()) + 1
    } else {
        keyed(records.drop_last())
    }
}

/// The entries that the records stand for, in their order. A record that
/// stands for none is left out.
pub open spec fn entries_of(records: Seq<Map<Seq<char>, Json>>) -> Seq<ImportEntryView>
    decreases records.len(),
{
    if records.len() == 0 {
        Seq::empty()
    } else {
        let before = entries_of(records.drop_last());
        match entry_of(records.last()) {
            Some(entry) => before.push(entry),
            None => before,
        }
    }
}

/// The bindings that the records hand on: for every record with a string
/// `key` and a `command` of any kind, the key with that command. Where a key
/// comes twice, the later record counts.
pub open spec fn exported(records: Seq<Map<Seq<char>, Json>>) -> Map<Seq<char>, Json>
    decreases records.len(),
{
    if records.len() == 0 {
        Map::empty()
    } else {
        let before = exported(records.drop_last());
        let last = records.last();
        match text_field(last, "key"@) {
            Some(key) if last.contains_key("command"@) => before.insert(key, last["command"@]),
            _ => before,
        }
    }
}

/// The one section that an export is made of: a single field, `bindings`,
/// that holds the exported bindings.
pub open spec fn export_section(records: Seq<Map<Seq<char>, Json>>) -> Map<Seq<char>, Json> {
    Map::<Seq<char>, Json>::empty().insert("bindings"@, Json::Object(exported(records)))
}

/// The text of an export: what the writer made of the document, or nothing
/// where it made none.
pub open spec fn export_text(written: Option<Seq<char>>) -> Seq<char> {
    match written {
        Some(text) => text,
        None => Seq::empty(),
    }
}

/// Every record with a string for its key stands for one entry, and no
/// other record stands for any.
pub proof fn lemma_every_keyed_record_is_an_entry(records: Seq<Map<Seq<char>, Json>>)
    ensures
        entries_of(records).len() == keyed(records),
        keyed(records) <= records.len(),
        (forall|i: int| 0 <= i < records.len() ==> text_field(#[trigger] records[i], "key"@) is Some)
            ==> keyed(records) == records.len(),
    decreases records.len(),
{
    if records.len() > 0 {
        let front = records.drop_last();
        lemma_every_keyed_record_is_an_entry(front);
        assert forall|i: int| 0 <= i < front.len() implies front[i] == records[i] by {}
        if forall|i: int| 0 <= i < records.len() ==> text_field(#[trigger] records[i], "key"@) is Some {
            assert(text_field(records[records.len() - 1], "key"@) is Some);
            assert forall|i: int| 0 <= i < front.len() implies text_field(
                #[trigger] front[i],
                "key"@,
            ) is Some by {
                assert(front[i] == records[i]);
            }
        }
    }
}

/// Every record with a string for its key is accepted or set aside: the two
/// lists of an import hold as many entries between them as there are such
/// records.
pub proof fn lemma_every_keyed_record_counted<L: KeyboardTables, R: CommandResolver>(
    layout: &L,
    resolver: &R,
    records: Seq<Map<Seq<char>, Json>>,
)
    ensures
        accepted_of(layout, resolver, entries_of(records)).len() + skipped_of(
            layout,
            resolver,
            entries_of(records),
        ).len() == keyed(records),
{
    lemma_every_keyed_record_is_an_entry(records);
    lemma_every_entry_counted(layout, resolver, entries_of(records));
}

/// Whether `records` list the bindings of an export again, as a reader of
/// the export would: one record for every key, with that key and its command
/// and nothing else.
pub open spec fn lists_again(bindings: Map<Seq<char>, Json>, records: Seq<Map<Seq<char>, Json>>) -> bool {
    &&& forall|i: int|
        0 <= i < records.len() ==> {
            &&& (#[trigger] records[i]).dom() =~= set!["key"@, "command"@]
            &&& text_field(records[i], "key"@) is Some
            &&& bindings.contains_key(text_field(records[i], "key"@).unwrap())
            &&& records[i]["command"@] == bindings[text_field(records[i], "key"@).unwrap()]
        }
    &&& forall|i: int, j: int|
        0 <= i < j < records.len() ==> text_field(#[trigger] records[i], "key"@) != text_field(
            #[trigger] records[j],
            "key"@,
        )
    &&& forall|key: Seq<char>| #[trigger]
        bindings.contains_key(key) ==> exists|i: int|
            0 <= i < records.len() && text_field(#[trigger] records[i], "key"@) == Some(key)
}

/// The records without their `when`.
pub open spec fn without_context(records: Seq<Map<Seq<char>, Json>>) -> Seq<Map<Seq<char>, Json>> {
    Seq::new(records.len(), |i: int| records[i].remove("when"@))
}

/// An export gives a key the command of the last record that binds the key.
pub proof fn lemma_export_keeps_commands(records: Seq<Map<Seq<char>, Json>>, i: int, key: Seq<char>)
    requires
        0 <= i < records.len(),
        text_field(records[i], "key"@) == Some(key),
        records[i].contains_key("command"@),
        forall|j: int|
            i < j < records.len() ==> !(text_field(#[trigger] records[j], "key"@) == Some(key)
                && records[j].contains_key("command"@)),
    ensures
        exported(records).contains_key(key),
        exported(records)[key] == records[i]["command"@],
    decreases records.len(),
{
    if i < records.len() - 1 {
        let front = records.drop_last();
        assert(front[i] == records[i]);
        assert forall|j: int| i < j < front.len() implies !(text_field(
            #[trigger] front[j],
            "key"@,
        ) == Some(key) && front[j].contains_key("command"@)) by {
            assert(front[j] == records[j]);
        }
        lemma_export_keeps_commands(front, i, key);
        assert(records.last() == records[records.len() - 1]);
    }
}

/// An export holds no binding that the records do not hold: every key of it
/// is the key of a record, and its command is the command of that record.
pub proof fn lemma_export_only_commands(records: Seq<Map<Seq<char>, Json>>, key: Seq<char>)
    requires
        exported(records).contains_key(key),
    ensures
        exists|i: int|
            0 <= i < records.len() && text_field(#[trigger] records[i], "key"@) == Some(key)
                && records[i].contains_key("command"@) && records[i]["command"@] == exported(
                records,
            )[key],
    decreases records.len(),
{
    if records.len() > 0 {
        let front = records.drop_last();
        let last = records.last();
        if text_field(last, "key"@) == Some(key) && last.contains_key("command"@) {
            assert(records[records.len() - 1] == last);
        } else {
            assert(exported(front).contains_key(key));
            lemma_export_only_commands(front, key);
            let i = choose|i: int|
                0 <= i < front.len() && text_field(#[trigger] front[i], "key"@) == Some(key)
                    && front[i].contains_key("command"@) && front[i]["command"@] == exported(
                    front,
                )[key];
            assert(records[i] == front[i]);
        }
    }
}

/// An export does not depend on the conditions of the bindings: the records
/// without their `when` export to the same bindings.
pub proof fn lemma_export_drops_context(records: Seq<Map<Seq<char>, Json>>)
    ensures
        exported(without_context(records)) == exported(records),
    decreases records.len(),
{
    reveal_strlit("when");
    reveal_strlit("key");
    reveal_strlit("command");
    if records.len() > 0 {
        lemma_export_drops_context(records.drop_last());
        assert(without_context(records).drop_last() =~= without_context(records.drop_last()));
        assert(without_context(records).last() == records.last().remove("when"@));
        assert("when"@ != "key"@) by {
            assert("when"@.len() != "key"@.len());
        }
        assert("when"@ != "command"@) by {
            assert("when"@.len() != "command"@.len());
        }
    }
}

/// What is exported and then listed again exports to the same bindings:
/// every key keeps its command, and no record of the second list has a
/// `when`, whatever the first list had.
pub proof fn lemma_export_round_trip(
    records: Seq<Map<Seq<char>, Json>>,
    again: Seq<Map<Seq<char>, Json>>,
)
    requires
        lists_again(exported(records), again),
    ensures
        exported(again) == exported(records),
        forall|i: int| 0 <= i < again.len() ==> text_field(#[trigger] again[i], "when"@) is None,
        forall|i: int|
            0 <= i < again.len() ==> match #[trigger] entry_of(again[i]) {
                Some(entry) => entry.when is None,
                None => true,
            },
{
    reveal_strlit("when");
    reveal_strlit("key");
    reveal_strlit("command");
    let bindings = exported(records);
    assert("when"@ != "key"@) by {
        assert("when"@.len() != "key"@.len());
    }
    assert("when"@ != "command"@) by {
        assert("when"@.len() != "command"@.len());
    }
    assert forall|i: int| 0 <= i < again.len() implies text_field(#[trigger] again[i], "when"@) is None by {
        assert(!again[i].dom().contains("when"@));
    }
    assert forall|key: Seq<char>| bindings.contains_key(key) implies exported(again).contains_key(
        key,
    ) && exported(again)[key] == bindings[key] by {
        let i = choose|i: int|
            0 <= i < again.len() && text_field(#[trigger] again[i], "key"@) == Some(key);
        assert(again[i].dom().contains("command"@));
        assert forall|j: int| i < j < again.len() implies !(text_field(
            #[trigger] again[j],
            "key"@,
        ) == Some(key) && again[j].contains_key("command"@)) by {
            assert(text_field(again[i], "key"@) != text_field(again[j], "key"@));
        }
        lemma_export_keeps_commands(again, i, key);
    }
    assert forall|key: Seq<char>| exported(again).contains_key(key) implies bindings.contains_key(
        key,
    ) by {
        lemma_export_only_commands(again, key);
    }
    assert(exported(again) =~= bindings);
}

impl VsCodeShortcuts {
    /// Reads a list of key bindings. It succeeds exactly where the lenient
    /// reader finds a list of JSON objects in `content`.
    pub fn from_str(content: &str) -> (r: Result<Self, InvalidJson>)
        ensures
            match r {
                Ok(shortcuts) => lenient_records(content@) == Some(shortcuts@),
                Err(_) => lenient_records(content@) is None,
            },
    {
        match read_records(content) {
            Ok(content) => Ok(VsCodeShortcuts { content }),
            Err(e) => Err(InvalidJson { message: error_text(&e) }),
        }
    }

    /// The number of records.
    pub fn len(&self) -> (r: usize)
        ensures
            r == self@.len(),
    {
        self.content.len()
    }

    /// The entries that the records stand for.
    pub fn entries(&self) -> (r: Vec<ImportEntry>)
        ensures
            entries_view(r@) == entries_of(self@),
    {
        let mut out: Vec<ImportEntry> = Vec::new();
        let ghost all = self@;
        let mut i: usize = 0;
        while i < self.content.len()
            invariant
                i <= self.content.len(),
                all == records_of(self.content@),
                entries_view(out@) == entries_of(all.take(i as int)),
            decreases self.content.len() - i,
        {
            let record = &self.content[i];
            assert(all.take(i + 1).drop_last() =~= all.take(i as int));
            assert(all.take(i + 1).last() == fields_of(*record));
            if let Some(key) = field_text(record, "key") {
                let command = match field_text(record, "command") {
                    Some(c) => Some(c.to_owned()),
                    None => None,
                };
                let when = match field_text(record, "when") {
                    Some(w) => Some(w.to_owned()),
                    None => None,
                };
                let entry = ImportEntry { key: key.to_owned(), command, when };
                let ghost before = out@;
                out.push(entry);
                assert(entries_view(out@) =~= entries_view(before).push(entry@));
            }
            i = i + 1;
        }
        assert(all.take(self.content.len() as int) =~= all);
        out
    }

    /// Imports the bindings under the layout of `keyboard_mapper`, taking
    /// every command for the name of an action, and tells which entries were
    /// set aside: each with its key combination as written and the reason.
    ///
    /// Every record with a string for its key is either among those set aside
    /// or gives a binding; a record without one binds nothing and is not told
    /// of.
    pub fn parse_shortcuts<L: KeyboardTables>(
        &self,
        keyboard_mapper: &WindowsKeyboardMapper<L>,
    ) -> (skipped: Vec<(String, String)>)
        ensures
            pairs_view(skipped@) == skipped_of(
                &keyboard_mapper.layout,
                &NamedAction,
                entries_of(self@),
            ),
            skipped.len() + accepted_of(
                &keyboard_mapper.layout,
                &NamedAction,
                entries_of(self@),
            ).len() == keyed(self@),
    {
        let entries = self.entries();
        let result = import(&entries, keyboard_mapper, &NamedAction);
        proof {
            lemma_every_keyed_record_counted(&keyboard_mapper.layout, &NamedAction, self@);
        }
        result.skipped
    }

    /// Writes the bindings as a keymap of the host: a list of one section,
    /// whose `bindings` give for every key its command. The conditions under
    /// which the bindings applied are not written.
    pub fn to_json(self) -> (r: String)
        ensures
            r@ == export_text(pretty_records(seq![export_section(self@)])),
    {
        let mut bindings = serde_json::Map::new();
        let ghost all = self@;
        assert(fields_of(bindings) =~= exported(all.take(0)));
        let mut i: usize = 0;
        while i < self.content.len()
            invariant
                i <= self.content.len(),
                all == records_of(self.content@),
                fields_of(bindings) == exported(all.take(i as int)),
            decreases self.content.len() - i,
        {
            let record = &self.content[i];
            assert(all.take(i + 1).drop_last() =~= all.take(i as int));
            assert(all.take(i + 1).last() == fields_of(*record));
            if let Some(key) = field_text(record, "key") {
                if let Some(command) = object_get(record, "command") {
                    bindings.insert(key.to_owned(), command.clone());
                }
            }
            i = i + 1;
        }
        assert(all.take(self.content.len() as int) =~= all);
        let mut first = serde_json::Map::new();
        first.insert("bindings".to_owned(), object_value(bindings));
        assert(fields_of(first) =~= export_section(all));
        let result = vec![first];
        assert(records_of(result@) =~= seq![export_section(all)]);
        match write_pretty(&result) {
            Ok(text) => text,
            Err(_) => String::new(),
        }
    }
}

} // verus!
