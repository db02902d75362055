//! Teal code that is compiled by the Teal compiler, which is itself written
//! in Lua: the script that hands the code to the compiler.

use crate::text::{replace_char, replaced_text};
use vstd::prelude::*;

verus! {

/// What the Teal compiler made of a piece of code.
#[derive(Clone, Debug, PartialEq, Eq)]
pub struct CompileResult {
    /// The Lua code; none where the Teal code did not compile.
    pub compiled: Option<String>,
    pub syntax_errors: Vec<String>,
    pub type_errors: Vec<String>,
}

/// `code` as it stands between single quotes in Lua: the backslashes, both
/// kinds of quotes and the line breaks are escaped, in this order.
pub open spec fn escaped_for_lua(code: Seq<char>) -> Seq<char> {
    replaced_text(
        replaced_text(
            replaced_text(replaced_text(code, '\\', "\\\\"@), '"', "\\\""@),
            '\'',
            "\\'"@,
        ),
        '\n',
        "\\n"@,
    )
}

/// What the script does before it is handed the code.
pub open spec fn script_head() -> Seq<char> {
    "\nlocal tl = require('tl')\nlocal env = tl.init_env(false, false, true)\nlocal output, result = tl.gen('"@
}

/// What the script does with what the compiler returns: it gathers the
/// errors with their places and returns them with the Lua code.
pub open spec fn script_tail() -> Seq<char> {
    "', env)\nlocal type_errors = {}\nfor k,v in ipairs(result.type_errors) do\n    type_errors[#type_errors + 1] = v.msg .. ' x=' .. tostring(v.x) .. ' y=' .. tostring(v.y) .. '\\n'\nend\nlocal syntax_errors = {}\nfor k,v in ipairs(result.syntax_errors) do\n    syntax_errors[#syntax_errors + 1] = v.msg .. ' x=' .. tostring(v.x) .. ' y=' .. tostring(v.y) .. '\\n'\nend\n\nreturn { output, syntax_errors, type_errors }\n"@
}

/// The Lua script that compiles `code`.
pub open spec fn compile_script_text(code: Seq<char>) -> Seq<char> {
    script_head() + escaped_for_lua(code) + script_tail()
}

/// `code` as it stands between single quotes in Lua.
pub fn escape_for_lua(code: &str) -> (escaped: String)
    ensures
        escaped@ == escaped_for_lua(code@),
{
    let code = replace_char(code, '\\', "\\\\");
    let code = replace_char(code.as_str(), '"', "\\\"");
    let code = replace_char(code.as_str(), '\'', "\\'");
    replace_char(code.as_str(), '\n', "\\n")
}

/// The Lua script that hands `code` to the Teal compiler and returns the
/// Lua code with the errors of syntax and of type.
pub fn compile_script(code: &str) -> (script: String)
    ensures
        script@ == compile_script_text(code@),
{
    let mut script =
        "\nlocal tl = require('tl')\nlocal env = tl.init_env(false, false, true)\nlocal output, result = tl.gen('".to_owned();
    script.append(escape_for_lua(code).as_str());
    script.append(
        "', env)\nlocal type_errors = {}\nfor k,v in ipairs(result.type_errors) do\n    type_errors[#type_errors + 1] = v.msg .. ' x=' .. tostring(v.x) .. ' y=' .. tostring(v.y) .. '\\n'\nend\nlocal syntax_errors = {}\nfor k,v in ipairs(result.syntax_errors) do\n    syntax_errors[#syntax_errors + 1] = v.msg .. ' x=' .. tostring(v.x) .. ' y=' .. tostring(v.y) .. '\\n'\nend\n\nreturn { output, syntax_errors, type_errors }\n",
    );
    script
}

} // verus!
