//! What a run produces from the description of a library.

pub mod definition_file;
pub mod html;
pub mod lua_addon;
pub mod missing_exports;
pub mod run;
pub mod sidebar;
