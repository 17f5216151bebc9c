//! From the commands of the imported editor to the actions of the host.

use vstd::prelude::*;
use vstd::string::StringExecFns;
use crate::json::{lenient_string, read_string};
use crate::text::{chars_eq, chars_of};
use crate::text::text_eq;

verus! {

/// The action that stands for a known command, and the context in which the
/// action applies. The table is closed: a command that it does not list has no
/// action.
pub open spec fn zed_action(command: Seq<char>) -> Option<(Seq<char>, Option<Seq<char>>)> {
    if command == "list.focusFirst"@ || command == "list.focusAnyFirst"@ {
        Some(("menu::SelectFirst"@, Some("menu"@)))
    } else if command == "list.focusLast"@ || command == "list.focusAnyLast"@ {
        Some(("menu::SelectLast"@, Some("menu"@)))
    } else if command == "list.focusUp"@ || command == "list.focusAnyUp"@ {
        Some(("menu::SelectPrevious"@, Some("menu"@)))
    } else if command == "list.focusDown"@ || command == "list.focusAnyDown"@ {
        Some(("menu::SelectNext"@, Some("menu"@)))
    } else if command == "list.select"@ {
        Some(("menu::Confirm"@, Some("menu"@)))
    } else if command == "list.clear"@ {
        Some(("menu::Cancel"@, Some("menu"@)))
    } else {
        None
    }
}

/// What a looked-up action is, with its texts as sequences of characters.
pub open spec fn action_view(found: Option<(String, Option<String>)>) -> Option<
    (Seq<char>, Option<Seq<char>>),
> {
    match found {
        Some((action, context)) => Some(
            (
                action@,
                match context {
                    Some(c) => Some(c@),
                    None => None,
                },
            ),
        ),
        None => None,
    }
}

/// What an optional text is, as a sequence of characters.
pub open spec fn text_view(text: Option<String>) -> Option<Seq<char>> {
    match text {
        Some(s) => Some(s@),
        None => None,
    }
}

fn menu_action(action: &str) -> (r: Option<(String, Option<String>)>)
    ensures
        action_view(r) == Some((action@, Some("menu"@))),
{
    Some((action.to_owned(), Some("menu".to_owned())))
}

/// Looks up the action of the host that stands for `command`, together with
/// the context that the action needs. The condition `when` under which the
/// command was bound plays no part.
pub fn vscode_shortcut_command_to_zed_action(command: &str, when: Option<&str>) -> (r: Option<
    (String, Option<String>),
>)
    ensures
        action_view(r) == zed_action(command@),
{
    if text_eq(command, "list.focusFirst") || text_eq(command, "list.focusAnyFirst") {
        menu_action("menu::SelectFirst")
    } else if text_eq(command, "list.focusLast") || text_eq(command, "list.focusAnyLast") {
        menu_action("menu::SelectLast")
    } else if text_eq(command, "list.focusUp") || text_eq(command, "list.focusAnyUp") {
        menu_action("menu::SelectPrevious")
    } else if text_eq(command, "list.focusDown") || text_eq(command, "list.focusAnyDown") {
        menu_action("menu::SelectNext")
    } else if text_eq(command, "list.select") {
        menu_action("menu::Confirm")
    } else if text_eq(command, "list.clear") {
        menu_action("menu::Cancel")
    } else {
        None
    }
}

/// A way to tell which action a command stands for.
///
/// A resolver never changes: asked twice for the same command, it answers
/// the same.
pub trait CommandResolver {
    /// The action that `command` stands for, if the resolver knows one.
    spec fn action_of(&self, command: Seq<char>) -> Option<Seq<char>>;

    fn resolve(&self, command: &str) -> (r: Option<String>)
        ensures
            text_view(r) == self.action_of(command@),
    ;
}

/// The resolver that knows the commands of [`zed_action`] and no others.
#[derive(Clone, Copy, Debug, PartialEq, Eq, Structural)]
pub struct CommandMap;

impl CommandResolver for CommandMap {
    open spec fn action_of(&self, command: Seq<char>) -> Option<Seq<char>> {
        match zed_action(command) {
            Some((action, _)) => Some(action),
            None => None,
        }
    }

    fn resolve(&self, command: &str) -> (r: Option<String>) {
        match vscode_shortcut_command_to_zed_action(command, None) {
            Some((action, _)) => Some(action),
            None => None,
        }
    }
}

/// A resolver given by a table: every command that the host knows, with its
/// action. Where a command comes twice, the first entry counts.
#[derive(Clone, Debug, PartialEq, Eq)]
pub struct CommandTable {
    pub actions: Vec<(String, String)>,
}

/// The entries of a table, each text as a sequence of characters.
pub open spec fn table_view(actions: Seq<(String, String)>) -> Seq<(Seq<char>, Seq<char>)> {
    Seq::new(actions.len(), |i: int| (actions[i].0@, actions[i].1@))
}

/// The action of the first entry of `actions`, from place `from` on, that
/// is for `command`.
pub open spec fn table_action(actions: Seq<(Seq<char>, Seq<char>)>, command: Seq<char>, from: int) -> Option<
    Seq<char>,
>
    decreases actions.len() - from,
{
    if from < 0 || from >= actions.len() {
        None
    } else if actions[from].0 == command {
        Some(actions[from].1)
    } else {
        table_action(actions, command, from + 1)
    }
}

impl CommandResolver for CommandTable {
    open spec fn action_of(&self, command: Seq<char>) -> Option<Seq<char>> {
        table_action(table_view(self.actions@), command, 0)
    }

    fn resolve(&self, command: &str) -> (r: Option<String>) {
        let wanted = chars_of(command);
        let ghost table = table_view(self.actions@);
        let mut i: usize = 0;
        while i < self.actions.len()
            invariant
                i <= self.actions.len(),
                wanted@ == command@,
                table == table_view(self.actions@),
                table_action(table, command@, 0) == table_action(table, command@, i as int),
            decreases self.actions.len() - i,
        {
            let name = chars_of(self.actions[i].0.as_str());
            assert(table[i as int].0 == name@);
            if chars_eq(&name, &wanted) {
                assert(table[i as int].1 == self.actions@[i as int].1@);
                return Some(self.actions[i].1.clone());
            }
            i = i + 1;
        }
        None
    }
}

impl CommandTable {
    /// The resolver with the given entries.
    pub fn new(actions: Vec<(String, String)>) -> (r: Self)
        ensures
            r.actions == actions,
    {
        CommandTable { actions }
    }
}

/// The JSON document that holds `command` as a string: the command between
/// two double quotes, with nothing escaped.
pub open spec fn quoted(command: Seq<char>) -> Seq<char> {
    "\""@ + command + "\""@
}

/// The resolver that takes a command for the name of an action already: the
/// action is what the command reads as when it is written between double
/// quotes as a JSON string. A command that cannot be read so has no action.
#[derive(Clone, Copy, Debug, PartialEq, Eq, Structural)]
pub struct NamedAction;

impl CommandResolver for NamedAction {
    open spec fn action_of(&self, command: Seq<char>) -> Option<Seq<char>> {
        lenient_string(quoted(command))
    }

    fn resolve(&self, command: &str) -> (r: Option<String>) {
        let mut document = String::new();
        document.append("\"");
        document.append(command);
        document.append("\"");
        assert(document@ =~= quoted(command@));
        match read_string(document.as_str()) {
            Ok(action) => Some(action),
            Err(_) => None,
        }
    }
}

} // verus!
