//! Generates the central files of the Godot bindings from Godot's interface description: the
//! enums of variant types and operators, the opaque types, the table of functions that are loaded
//! from Godot, the dispatch over variant types, and the global enums.

pub mod api;
pub mod check;
pub mod check_laws;
pub mod code;
pub mod code_laws;
pub mod entry_laws;
pub mod field_laws;
pub mod fields;
pub mod generate;
pub mod ident;
pub mod items;
pub mod laws;
pub mod text;
pub mod text_laws;
pub mod tokens;
pub mod types;
mod words;
