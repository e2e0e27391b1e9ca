//! A parser for desktop entry files: groups of locale-aware key-value pairs that
//! describe an application, a link or a directory, and the actions it offers.
//!
//! `parse` turns the text of a file into a `DesktopFile`, or into the first
//! `ParseError` it meets. Every step is stated over a mathematical model
//! (`parser::parse_model`) and verified against it.
pub mod internal_structs;
pub mod laws;
pub mod parser;
pub mod structs;
pub mod text;

pub use parser::parse;
pub use structs::{
    ApplicationFields, DesktopAction, DesktopEntry, DesktopFile, EntryType, IconString,
    LinkFields, LocaleString, LocaleStringList, ParseError,
};
