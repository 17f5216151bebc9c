//! The identity of a keyboard layout.

use vstd::prelude::*;
use vstd::string::StringExecFns;
use crate::error::LayoutUnavailable;

verus! {

/// A keyboard layout as the system names it: its identifier and the name
/// shown to people. A value never changes once it is made.
#[derive(Clone, Debug, PartialEq, Eq, Hash)]
pub struct WindowsKeyboardLayout {
    id: String,
    name: String,
}

/// What a [`WindowsKeyboardLayout`] is.
pub struct LayoutView {
    pub id: Seq<char>,
    pub name: Seq<char>,
}

impl View for WindowsKeyboardLayout {
    type V = LayoutView;

    closed spec fn view(&self) -> LayoutView {
        LayoutView { id: self.id@, name: self.name@ }
    }
}

/// The place in the registry where the system keeps what it knows of the
/// layout `id`.
pub open spec fn registry_key(id: Seq<char>) -> Seq<char> {
    "System\\CurrentControlSet\\Control\\Keyboard Layouts\\"@ + id
}

/// The layout that stands in where the system names none.
pub open spec fn unknown_layout() -> LayoutView {
    LayoutView { id: "unknown"@, name: "unknown"@ }
}

impl WindowsKeyboardLayout {
    /// The layout with the identifier and the name that the system gave. It
    /// fails where the system gave no identifier or no name.
    pub fn new(id: Option<String>, name: Option<String>) -> (r: Result<Self, LayoutUnavailable>)
        ensures
            match (id, name) {
                (Some(i), Some(n)) => r matches Ok(layout) && layout@ == (LayoutView {
                    id: i@,
                    name: n@,
                }),
                _ => r is Err,
            },
    {
        match (id, name) {
            (Some(id), Some(name)) => Ok(WindowsKeyboardLayout { id, name }),
            _ => Err(LayoutUnavailable),
        }
    }

    /// The layout that stands in where the system names none.
    pub fn unknown() -> (r: Self)
        ensures
            r@ == unknown_layout(),
    {
        WindowsKeyboardLayout { id: "unknown".to_owned(), name: "unknown".to_owned() }
    }

    /// `found` where the system named a layout, else the layout that stands
    /// in for an unknown one.
    pub fn or_unknown(found: Result<Self, LayoutUnavailable>) -> (r: Self)
        ensures
            r@ == match found {
                Ok(layout) => layout@,
                Err(_) => unknown_layout(),
            },
    {
        match found {
            Ok(layout) => layout,
            Err(_) => Self::unknown(),
        }
    }

    /// The place in the registry where the name of the layout `id` is kept.
    pub fn registry_path(id: &str) -> (r: String)
        ensures
            r@ == registry_key(id@),
    {
        let mut path = String::new();
        path.append("System\\CurrentControlSet\\Control\\Keyboard Layouts\\");
        path.append(id);
        assert(path@ =~= registry_key(id@));
        path
    }

    /// The identifier of the layout.
    pub fn id(&self) -> (r: &str)
        ensures
            r@ == self@.id,
    {
        self.id.as_str()
    }

    /// The name of the layout as shown to people.
    pub fn name(&self) -> (r: &str)
        ensures
            r@ == self@.name,
    {
        self.name.as_str()
    }
}

} // verus!
