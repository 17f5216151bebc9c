//! The import of key bindings written for another editor.
//!
//! Every entry is taken by itself: it either becomes a binding of the host
//! or is set aside with the reason, so that one entry that fails never stops
//! the others.

use vstd::prelude::*;
use vstd::string::StringExecFns;
use crate::commands::CommandResolver;
use crate::error::{KeyError, KeyErrorView};
use crate::keyboard::{shift_view, shifted_key, KeyboardTables, WindowsKeyboardMapper};
use crate::keystroke::{
    alphabetic_key, is_alphabetic_key, parsed, Keystroke, KeystrokeView, Modifiers,
};
use crate::text::chars_of;

verus! {

/// The character that joins the tokens of an imported key combination.
pub const SEPARATOR: char = '+';

/// One key binding as the other editor wrote it: its key combination, its
/// command where it names one, and the condition under which it applies
/// where it has one.
#[derive(Clone, Debug, PartialEq, Eq)]
pub struct ImportEntry {
    pub key: String,
    pub command: Option<String>,
    pub when: Option<String>,
}

/// What an [`ImportEntry`] is, with its texts as sequences of characters.
pub struct ImportEntryView {
    pub key: Seq<char>,
    pub command: Option<Seq<char>>,
    pub when: Option<Seq<char>>,
}

impl View for ImportEntry {
    type V = ImportEntryView;

    open spec fn view(&self) -> ImportEntryView {
        ImportEntryView {
            key: self.key@,
            command: match self.command {
                Some(c) => Some(c@),
                None => None,
            },
            when: match self.when {
                Some(w) => Some(w@),
                None => None,
            },
        }
    }
}

/// A key binding of the host: the context in which it applies, the
/// keystroke, and the action that the keystroke starts.
#[derive(Clone, Debug, PartialEq, Eq)]
pub struct Binding {
    pub context: String,
    pub keystroke: Keystroke,
    pub action: String,
}

/// What a [`Binding`] is, with its texts as sequences of characters.
pub struct BindingView {
    pub context: Seq<char>,
    pub keystroke: KeystrokeView,
    pub action: Seq<char>,
}

impl View for Binding {
    type V = BindingView;

    open spec fn view(&self) -> BindingView {
        BindingView { context: self.context@, keystroke: self.keystroke@, action: self.action@ }
    }
}

/// Why an entry was set aside.
#[derive(Clone, Debug, PartialEq, Eq)]
pub enum SkipReason {
    /// The key combination does not follow the format.
    InvalidKeystroke,
    /// The key is written as a scan code or as a virtual-key name.
    UnsupportedEncoding,
    /// The key is to be pressed with Shift, and the layout does not say what
    /// it then produces.
    ShiftUnresolved(KeyError),
    /// The entry names no command.
    MissingCommand,
    /// No action stands for the command.
    CommandUnresolved { command: String },
}

/// What a [`SkipReason`] is, with its texts as sequences of characters.
pub enum SkipReasonView {
    InvalidKeystroke,
    UnsupportedEncoding,
    ShiftUnresolved(KeyErrorView),
    MissingCommand,
    CommandUnresolved { command: Seq<char> },
}

impl View for SkipReason {
    type V = SkipReasonView;

    open spec fn view(&self) -> SkipReasonView {
        match self {
            SkipReason::InvalidKeystroke => SkipReasonView::InvalidKeystroke,
            SkipReason::UnsupportedEncoding => SkipReasonView::UnsupportedEncoding,
            SkipReason::ShiftUnresolved(e) => SkipReasonView::ShiftUnresolved(e@),
            SkipReason::MissingCommand => SkipReasonView::MissingCommand,
            SkipReason::CommandUnresolved { command } => SkipReasonView::CommandUnresolved {
                command: command@,
            },
        }
    }
}

impl SkipReasonView {
    /// The sentence that tells a reader why the entry was set aside.
    pub open spec fn message(self) -> Seq<char> {
        match self {
            SkipReasonView::InvalidKeystroke => "Unable to parse keystroke"@,
            SkipReasonView::UnsupportedEncoding => {
                "Unable to parse keystroke that using Scan Code or Virtual Key"@
            },
            SkipReasonView::ShiftUnresolved(e) => "Unable to parse keystroke: "@ + e.message(),
            SkipReasonView::MissingCommand => "Unable to parse command"@,
            SkipReasonView::CommandUnresolved { command } => "Unable to parse command: "@ + command,
        }
    }
}

impl SkipReason {
    /// The sentence that tells a reader why the entry was set aside.
    pub fn message(&self) -> (r: String)
        ensures
            r@ == self@.message(),
    {
        match self {
            SkipReason::InvalidKeystroke => "Unable to parse keystroke".to_owned(),
            SkipReason::UnsupportedEncoding => {
                "Unable to parse keystroke that using Scan Code or Virtual Key".to_owned()
            },
            SkipReason::ShiftUnresolved(e) => {
                let cause = e.message();
                let mut out = String::new();
                out.append("Unable to parse keystroke: ");
                out.append(cause.as_str());
                assert(out@ =~= self@.message());
                out
            },
            SkipReason::MissingCommand => "Unable to parse command".to_owned(),
            SkipReason::CommandUnresolved { command } => {
                let mut out = String::new();
                out.append("Unable to parse command: ");
                out.append(command.as_str());
                assert(out@ =~= self@.message());
                out
            },
        }
    }
}

/// The outcome of an import: the bindings that were accepted, and for every
/// entry that was set aside its key combination as written and the reason.
/// Both lists are in the order of the entries.
#[derive(Clone, Debug, PartialEq, Eq)]
pub struct ImportResult {
    pub accepted: Vec<Binding>,
    pub skipped: Vec<(String, String)>,
}

/// Whether `key` is written as a scan code, between square brackets, or as
/// the name of a virtual key, which starts with `oem`.
pub open spec fn unsupported_encoding(key: Seq<char>) -> bool {
    (key.len() >= 1 && key.first() == '[' && key.last() == ']') || (key.len() >= 3 && key[0]
        == 'o' && key[1] == 'e' && key[2] == 'm')
}

/// The keystroke in the form of the host: a key pressed with Shift that is
/// not a letter is replaced by what it then produces, and Shift is let go.
pub open spec fn normalized<L: KeyboardTables>(layout: &L, keystroke: KeystrokeView) -> Result<
    KeystrokeView,
    KeyErrorView,
> {
    if alphabetic_key(keystroke.key) || !keystroke.modifiers.shift {
        Ok(keystroke)
    } else {
        match shifted_key(layout, keystroke.key) {
            Ok(key) => Ok(
                KeystrokeView { modifiers: Modifiers { shift: false, ..keystroke.modifiers }, key },
            ),
            Err(e) => Err(e),
        }
    }
}

/// What becomes of one entry: the binding it gives, or the reason why it is
/// set aside. The steps are taken in this order: read the combination, refuse
/// an unsupported encoding, normalise the keystroke, find the action. The
/// command is looked at in the last step only, so that an entry without one is
/// still told what is wrong with its key.
pub open spec fn outcome<L: KeyboardTables, R: CommandResolver>(
    layout: &L,
    resolver: &R,
    entry: ImportEntryView,
) -> Result<BindingView, SkipReasonView> {
    match parsed(entry.key, SEPARATOR) {
        None => Err(SkipReasonView::InvalidKeystroke),
        Some(keystroke) => {
            if unsupported_encoding(keystroke.key) {
                Err(SkipReasonView::UnsupportedEncoding)
            } else {
                match normalized(layout, keystroke) {
                    Err(e) => Err(SkipReasonView::ShiftUnresolved(e)),
                    Ok(keystroke) => match entry.command {
                        None => Err(SkipReasonView::MissingCommand),
                        Some(command) => match resolver.action_of(command) {
                            None => Err(SkipReasonView::CommandUnresolved { command }),
                            Some(action) => Ok(
                                BindingView {
                                    context: match entry.when {
                                        Some(w) => w,
                                        None => Seq::empty(),
                                    },
                                    keystroke,
                                    action,
                                },
                            ),
                        },
                    },
                }
            }
        },
    }
}

/// The bindings that the entries give, in the order of the entries.
pub open spec fn accepted_of<L: KeyboardTables, R: CommandResolver>(
    layout: &L,
    resolver: &R,
    entries: Seq<ImportEntryView>,
) -> Seq<BindingView>
    decreases entries.len(),
{
    if entries.len() == 0 {
        Seq::empty()
    } else {
        let before = accepted_of(layout, resolver, entries.drop_last());
        match outcome(layout, resolver, entries.last()) {
            Ok(binding) => before.push(binding),
            Err(_) => before,
        }
    }
}

/// The entries that are set aside, in the order of the entries: each with
/// its key combination as written and the sentence that gives the reason.
pub open spec fn skipped_of<L: KeyboardTables, R: CommandResolver>(
    layout: &L,
    resolver: &R,
    entries: Seq<ImportEntryView>,
) -> Seq<(Seq<char>, Seq<char>)>
    decreases entries.len(),
{
    if entries.len() == 0 {
        Seq::empty()
    } else {
        let before = skipped_of(layout, resolver, entries.drop_last());
        match outcome(layout, resolver, entries.last()) {
            Ok(_) => before,
            Err(reason) => before.push((entries.last().key, reason.message())),
        }
    }
}

/// The entries of a list, each by its view.
pub open spec fn entries_view(entries: Seq<ImportEntry>) -> Seq<ImportEntryView> {
    Seq::new(entries.len(), |i: int| entries[i]@)
}

/// The bindings of a list, each by its view.
pub open spec fn bindings_view(bindings: Seq<Binding>) -> Seq<BindingView> {
    Seq::new(bindings.len(), |i: int| bindings[i]@)
}

/// The pairs of a list, each text as a sequence of characters.
pub open spec fn pairs_view(pairs: Seq<(String, String)>) -> Seq<(Seq<char>, Seq<char>)> {
    Seq::new(pairs.len(), |i: int| (pairs[i].0@, pairs[i].1@))
}

/// Every entry is in exactly one of the two lists.
pub proof fn lemma_every_entry_counted<L: KeyboardTables, R: CommandResolver>(
    layout: &L,
    resolver: &R,
    entries: Seq<ImportEntryView>,
)
    ensures
        accepted_of(layout, resolver, entries).len() + skipped_of(layout, resolver, entries).len()
            == entries.len(),
    decreases entries.len(),
{
    if entries.len() > 0 {
        lemma_every_entry_counted(layout, resolver, entries.drop_last());
    }
}

/// A key that is no letter is never accepted together with Shift: where Shift
/// was held down, the key has been replaced by what it then produces.
pub proof fn lemma_shift_stays_with_letters<L: KeyboardTables, R: CommandResolver>(
    layout: &L,
    resolver: &R,
    entry: ImportEntryView,
)
    ensures
        match outcome(layout, resolver, entry) {
            Ok(binding) => binding.keystroke.modifiers.shift ==> alphabetic_key(
                binding.keystroke.key,
            ),
            Err(_) => true,
        },
{
}

/// An entry is set aside for its encoding exactly where its combination
/// follows the format and its key is written as a scan code or as the name of
/// a virtual key, whatever the layout and the commands are.
pub proof fn lemma_unsupported_encoding_is_set_aside<L: KeyboardTables, R: CommandResolver>(
    layout: &L,
    resolver: &R,
    entry: ImportEntryView,
)
    ensures
        outcome(layout, resolver, entry) == Err::<BindingView, SkipReasonView>(
            SkipReasonView::UnsupportedEncoding,
        ) <==> (parsed(entry.key, SEPARATOR) matches Some(keystroke) && unsupported_encoding(
            keystroke.key,
        )),
{
}

/// Whether `key` is written as a scan code or as the name of a virtual key.
pub fn is_unsupported_encoding(key: &str) -> (r: bool)
    ensures
        r == unsupported_encoding(key@),
{
    let chars = chars_of(key);
    let n = chars.len();
    (n >= 1 && chars[0] == '[' && chars[n - 1] == ']') || (n >= 3 && chars[0] == 'o' && chars[1]
        == 'e' && chars[2] == 'm')
}

/// Brings `keystroke` into the form of the host.
pub fn normalize<L: KeyboardTables>(mapper: &WindowsKeyboardMapper<L>, keystroke: Keystroke) -> (r:
    Result<Keystroke, KeyError>)
    ensures
        match r {
            Ok(k) => normalized(&mapper.layout, keystroke@) == Ok::<KeystrokeView, KeyErrorView>(k@),
            Err(e) => normalized(&mapper.layout, keystroke@) == Err::<KeystrokeView, KeyErrorView>(
                e@,
            ),
        },
{
    if is_alphabetic_key(keystroke.key.as_str()) || !keystroke.modifiers.shift {
        return Ok(keystroke);
    }
    match mapper.get_shifted_key(keystroke.key.as_str()) {
        Ok(key) => {
            let modifiers = Modifiers { shift: false, ..keystroke.modifiers };
            Ok(Keystroke { modifiers, key })
        },
        Err(e) => Err(e),
    }
}

/// Takes one entry through the steps of the import.
pub fn import_entry<L: KeyboardTables, R: CommandResolver>(
    entry: &ImportEntry,
    mapper: &WindowsKeyboardMapper<L>,
    resolver: &R,
) -> (r: Result<Binding, SkipReason>)
    ensures
        match r {
            Ok(b) => outcome(&mapper.layout, resolver, entry@) == Ok::<BindingView, SkipReasonView>(
                b@,
            ),
            Err(e) => outcome(&mapper.layout, resolver, entry@) == Err::<
                BindingView,
                SkipReasonView,
            >(e@),
        },
{
    let keystroke = match Keystroke::parse_with_separator(entry.key.as_str(), SEPARATOR) {
        Ok(k) => k,
        Err(_) => {
            return Err(SkipReason::InvalidKeystroke);
        },
    };
    if is_unsupported_encoding(keystroke.key.as_str()) {
        return Err(SkipReason::UnsupportedEncoding);
    }
    let keystroke = match normalize(mapper, keystroke) {
        Ok(k) => k,
        Err(e) => {
            return Err(SkipReason::ShiftUnresolved(e));
        },
    };
    let command = match &entry.command {
        Some(c) => c,
        None => {
            return Err(SkipReason::MissingCommand);
        },
    };
    let action = match resolver.resolve(command.as_str()) {
        Some(a) => a,
        None => {
            return Err(SkipReason::CommandUnresolved { command: command.clone() });
        },
    };
    let context = match &entry.when {
        Some(w) => w.clone(),
        None => String::new(),
    };
    Ok(Binding { context, keystroke, action })
}

/// Imports `entries`: every entry becomes a binding or is set aside with the
/// reason, and both lists keep the order of the entries.
pub fn import<L: KeyboardTables, R: CommandResolver>(
    entries: &Vec<ImportEntry>,
    mapper: &WindowsKeyboardMapper<L>,
    resolver: &R,
) -> (r: ImportResult)
    ensures
        bindings_view(r.accepted@) == accepted_of(&mapper.layout, resolver, entries_view(entries@)),
        pairs_view(r.skipped@) == skipped_of(&mapper.layout, resolver, entries_view(entries@)),
        r.accepted.len() + r.skipped.len() == entries.len(),
{
    let mut accepted: Vec<Binding> = Vec::new();
    let mut skipped: Vec<(String, String)> = Vec::new();
    let ghost all = entries_view(entries@);
    let mut i: usize = 0;
    while i < entries.len()
        invariant
            i <= entries.len(),
            all == entries_view(entries@),
            bindings_view(accepted@) == accepted_of(&mapper.layout, resolver, all.take(i as int)),
            pairs_view(skipped@) == skipped_of(&mapper.layout, resolver, all.take(i as int)),
            accepted.len() + skipped.len() == i,
        decreases entries.len() - i,
    {
        let entry = &entries[i];
        assert(all.take(i + 1).drop_last() =~= all.take(i as int));
        assert(all.take(i + 1).last() == entry@);
        match import_entry(entry, mapper, resolver) {
            Ok(binding) => {
                let ghost before = accepted@;
                accepted.push(binding);
                assert(bindings_view(accepted@) =~= bindings_view(before).push(binding@));
            },
            Err(reason) => {
                let ghost before = skipped@;
                let pair = (entry.key.clone(), reason.message());
                skipped.push(pair);
                assert(pairs_view(skipped@) =~= pairs_view(before).push((entry@.key, reason@.message())));
            },
        }
        i = i + 1;
    }
    assert(all.take(entries.len() as int) =~= all);
    ImportResult { accepted, skipped }
}

} // verus!
