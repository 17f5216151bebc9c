//! Layout-aware translation of imported key combinations.
//!
//! The crate turns key-combination strings written for another editor into
//! keystrokes of the host's shortcut system. Its parts, leaves first:
//!
//! * [`text`]: the few operations on strings and characters that the rest needs;
//! * [`keystroke`]: modifiers, keystrokes and the format of a key combination;
//! * [`error`]: the failures and their messages;
//! * [`layout`]: the identity of a keyboard layout;
//! * [`keyboard`]: the virtual-key resolver and the shift resolver over the
//!   tables of a layout;
//! * [`table`]: layouts held in memory, as a table of keys or as a snapshot of
//!   the tables of the system;
//! * [`commands`]: from the commands of the other editor to actions of the host;
//! * [`import`]: the import itself, entry by entry;
//! * [`json`] and [`fields`]: JSON documents as `serde_json` holds them;
//! * [`shortcuts`] and [`settings`]: the two documents of the other editor.
//!
//! Every function states what it returns over `Seq<char>` and the views of the
//! types, and Verus proves it. What is taken on trust of `std` and of
//! `serde_json` stands in [`json`], with one item each in [`text`] and
//! [`keyboard`].

pub mod commands;
pub mod error;
pub mod fields;
pub mod import;
pub mod json;
pub mod keyboard;
pub mod keystroke;
pub mod layout;
pub mod settings;
pub mod shortcuts;
pub mod table;
pub mod text;
