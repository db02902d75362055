//! Renders a description of a library's exported types into the data that
//! documentation pages are made of: cross references between the types, the
//! link of every type, the sidebar, the pages themselves, the types that are
//! used without being exported, and the declaration file of an editor addon.

pub mod compile_teal;
pub mod config;
pub mod doc_gen;
pub mod find_uses;
pub mod generation;
pub mod markdown;
pub mod render_type;
pub mod text;
pub mod type_generator;
pub mod type_model;
pub mod type_walker;
