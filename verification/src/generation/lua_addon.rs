//! The addon for the Lua language server: a manifest, and the library
//! written down as annotated Lua declarations.

use crate::config::LuaAddon;
use crate::generation::missing_exports::function_leaves;
use crate::text::{
    chars_of, concat_str, decimal_string, decimal_text, ends_with, has_suffix, replace_char,
    replaced_text, same_str, string_of, trimmed_end, trimmed_length,
};
use crate::type_generator::{
    ExportedFunction, ExportedFunctionView, Field, FieldView, MemberDoc, MemberDocView,
    RecordGenerator, RecordView, TypeGenerator, TypeGeneratorView,
};
use crate::type_model::{
    collect_leaves_of, collect_param_leaves, params_view, types_view, views, FunctionParam,
    FunctionParamView, KindOfType, SingleType, SingleTypeView, Type, TypeView,
};
use crate::type_walker::{GlobalInstance, GlobalInstanceView, TypeWalker, TypeWalkerView};
use vstd::prelude::*;

verus! {

/// The name of a single type in a declaration: an external type stands
/// below `base`, where there is one; and a name that ends in three dots is
/// written with a space before the dots, as the language server wants a
/// list of values written.
pub open spec fn single_name_text(single: SingleTypeView, base: Seq<char>) -> Seq<char> {
    let full = if single.kind == KindOfType::External && base.len() > 0 {
        base + "."@ + single.name
    } else {
        single.name
    };
    if ends_with(full, "..."@) {
        trimmed_end(full.take(full.len() - "..."@.len())) + " ..."@
    } else {
        full
    }
}

/// The name of the parameter at the 1-based `position`: its own, or `Param`
/// and the position.
pub open spec fn param_name_text(param: FunctionParamView, position: nat) -> Seq<char> {
    match param.param_name {
        Some(name) => name,
        None => "Param"@ + decimal_text(position),
    }
}

/// How `ty` is written in a declaration.
pub open spec fn type_name_text(ty: TypeView, base: Seq<char>) -> Seq<char>
    decreases ty, 0nat,
{
    match ty {
        TypeView::Function { params, return_types } => "fun("@ + params_text(
            params,
            params.len(),
            base,
        ) + "):"@ + if return_types.len() == 0 {
            "nil"@
        } else {
            types_text(return_types, return_types.len(), base, ","@)
        },
        TypeView::Single(single) => single_name_text(single, base),
        TypeView::MapOf { key, value } => "{ ["@ + type_name_text(*key, base) + "]: "@
            + type_name_text(*value, base) + "}"@,
        TypeView::Or(items) => if items.len() == 0 {
            "( )"@
        } else {
            "( "@ + types_text(items, items.len(), base, "|"@) + " )"@
        },
        TypeView::Array(item) => "("@ + type_name_text(*item, base) + ")[]"@,
        TypeView::Tuple(items) => types_text(items, items.len(), base, ","@),
        TypeView::Variadic(item) => type_name_text(*item, base) + " ..."@,
    }
}

/// The first `n` of `items` as they are written, with `separator` between
/// them.
pub open spec fn types_text(
    items: Seq<TypeView>,
    n: nat,
    base: Seq<char>,
    separator: Seq<char>,
) -> Seq<char>
    decreases items, n,
{
    if n == 1 && n <= items.len() {
        type_name_text(items[0], base)
    } else if 1 < n <= items.len() {
        types_text(items, (n - 1) as nat, base, separator) + separator + type_name_text(
            items[n - 1],
            base,
        )
    } else {
        Seq::empty()
    }
}

/// The first `n` of `params` as a function type lists them: name, colon and
/// type, with commas between them.
pub open spec fn params_text(params: Seq<FunctionParamView>, n: nat, base: Seq<char>) -> Seq<char>
    decreases params, n,
{
    if n == 1 && n <= params.len() {
        param_name_text(params[0], 1) + ":"@ + type_name_text(params[0].ty, base)
    } else if 1 < n <= params.len() {
        params_text(params, (n - 1) as nat, base) + ","@ + param_name_text(params[n - 1], n)
            + ":"@ + type_name_text(params[n - 1].ty, base)
    } else {
        Seq::empty()
    }
}

fn single_name(single: &SingleType, base: &str) -> (text: String)
    ensures
        text@ == single_name_text(single@, base@),
{
    let full = if single.kind.is_external() && !base.is_empty() {
        let mut full = concat_str(base, ".");
        full.append(single.name.as_str());
        full
    } else {
        single.name.clone()
    };
    let chars = chars_of(full.as_str());
    let dots = chars_of("...");
    proof {
        reveal_strlit("...");
    }
    if has_suffix(&chars, &dots) {
        let kept = trimmed_length(&chars, chars.len() - 3);
        let mut text = string_of(&chars, 0, kept);
        text.append(" ...");
        text
    } else {
        full
    }
}

fn param_name(param: &FunctionParam, position: usize) -> (text: String)
    ensures
        text@ == param_name_text(param@, position as nat),
{
    match &param.param_name {
        Some(name) => name.clone(),
        None => concat_str("Param", decimal_string(position).as_str()),
    }
}

/// How `ty` is written in a declaration, as [`type_name_text`] says.
pub fn type_to_name(ty: &Type, base: &str) -> (text: String)
    ensures
        text@ == type_name_text(ty@, base@),
    decreases ty,
{
    match ty {
        Type::Function(f) => {
            let mut text = "fun(".to_owned();
            text.append(params_to_text(&f.params, base).as_str());
            text.append("):");
            if f.return_types.len() == 0 {
                text.append("nil");
            } else {
                text.append(types_to_text(&f.return_types, base, ",").as_str());
            }
            assert(types_view(f.return_types).len() == f.return_types.len());
            text
        },
        Type::Single(single) => single_name(single, base),
        Type::MapOf(m) => {
            let mut text = "{ [".to_owned();
            text.append(type_to_name(&m.key, base).as_str());
            text.append("]: ");
            text.append(type_to_name(&m.value, base).as_str());
            text.append("}");
            text
        },
        Type::Or(items) => {
            assert(types_view(*items).len() == items.len());
            if items.len() == 0 {
                "( )".to_owned()
            } else {
                let mut text = "( ".to_owned();
                text.append(types_to_text(items, base, "|").as_str());
                text.append(" )");
                text
            }
        },
        Type::Array(item) => {
            let mut text = "(".to_owned();
            text.append(type_to_name(item, base).as_str());
            text.append(")[]");
            text
        },
        Type::Tuple(items) => {
            types_to_text(items, base, ",")
        },
        Type::Variadic(item) => {
            let mut text = type_to_name(item, base);
            text.append(" ...");
            text
        },
    }
}

fn types_to_text(items: &Vec<Type>, base: &str, separator: &str) -> (text: String)
    ensures
        text@ == types_text(types_view(*items), items.len() as nat, base@, separator@),
    decreases items,
{
    let ghost all = types_view(*items);
    let mut text = String::new();
    let mut i: usize = 0;
    while i < items.len()
        invariant
            i <= items.len(),
            all == types_view(*items),
            text@ == types_text(all, i as nat, base@, separator@),
        decreases items.len() - i,
    {
        if i > 0 {
            text.append(separator);
        }
        text.append(type_to_name(&items[i], base).as_str());
        i += 1;
    }
    text
}

fn params_to_text(params: &Vec<FunctionParam>, base: &str) -> (text: String)
    ensures
        text@ == params_text(params_view(*params), params.len() as nat, base@),
    decreases params,
{
    let ghost all = params_view(*params);
    let mut text = String::new();
    let mut i: usize = 0;
    while i < params.len()
        invariant
            i <= params.len(),
            all == params_view(*params),
            text@ == params_text(all, i as nat, base@),
        decreases params.len() - i,
    {
        if i > 0 {
            text.append(",");
        }
        text.append(param_name(&params[i], i + 1).as_str());
        text.append(":");
        text.append(type_to_name(&params[i].ty, base).as_str());
        i += 1;
    }
    text
}

/// The names of the generic placeholders among the first `n` of `singles`,
/// each once, where it stands first.
pub open spec fn distinct_generic_names(singles: Seq<SingleTypeView>, n: nat) -> Seq<Seq<char>>
    decreases n,
{
    if 0 < n <= singles.len() {
        let before = distinct_generic_names(singles, (n - 1) as nat);
        if singles[n - 1].kind == KindOfType::Generic && !before.contains(singles[n - 1].name) {
            before.push(singles[n - 1].name)
        } else {
            before
        }
    } else {
        Seq::empty()
    }
}

/// One line for each of the first `n` of `names`, which declares it generic.
pub open spec fn generic_lines(names: Seq<Seq<char>>, n: nat) -> Seq<char>
    decreases n,
{
    if 0 < n <= names.len() {
        generic_lines(names, (n - 1) as nat) + "---@generic "@ + names[n - 1] + "\n"@
    } else {
        Seq::empty()
    }
}

/// One line for each of the first `n` of `params`, with its name and type.
pub open spec fn param_lines(params: Seq<FunctionParamView>, n: nat, base: Seq<char>) -> Seq<char>
    decreases n,
{
    if 0 < n <= params.len() {
        param_lines(params, (n - 1) as nat, base) + "---@param "@ + param_name_text(
            params[n - 1],
            n,
        ) + " "@ + type_name_text(params[n - 1].ty, base) + "\n"@
    } else {
        Seq::empty()
    }
}

/// The names of the first `n` of `params`, with commas between them.
pub open spec fn param_names(params: Seq<FunctionParamView>, n: nat) -> Seq<char>
    decreases n,
{
    if n == 1 && n <= params.len() {
        param_name_text(params[0], 1)
    } else if 1 < n <= params.len() {
        param_names(params, (n - 1) as nat) + ","@ + param_name_text(params[n - 1], n)
    } else {
        Seq::empty()
    }
}

/// One line for each of the first `n` of `types`, which a function returns.
pub open spec fn return_lines(types: Seq<TypeView>, n: nat, base: Seq<char>) -> Seq<char>
    decreases n,
{
    if 0 < n <= types.len() {
        return_lines(types, (n - 1) as nat, base) + "---@return "@ + type_name_text(
            types[n - 1],
            base,
        ) + "\n"@
    } else {
        Seq::empty()
    }
}

/// The name a function is declared under: below `class_name`, where there
/// is one.
pub open spec fn declared_name(class_name: Seq<char>, name: Seq<char>) -> Seq<char> {
    if class_name.len() > 0 {
        class_name + "."@ + name
    } else {
        name
    }
}

/// The declaration of `function`: its generics, its parameters and what it
/// returns as annotations, and then the function itself with an empty body.
pub open spec fn function_text(
    function: ExportedFunctionView,
    class_name: Seq<char>,
    base: Seq<char>,
) -> Seq<char> {
    let generics = distinct_generic_names(
        function_leaves(function),
        function_leaves(function).len(),
    );
    generic_lines(generics, generics.len()) + param_lines(
        function.params,
        function.params.len(),
        base,
    ) + return_lines(function.return_types, function.return_types.len(), base) + "function "@
        + declared_name(class_name, function.name) + "("@ + param_names(
        function.params,
        function.params.len(),
    ) + ") end\n"@
}

/// The declarations of the first `n` of `functions`.
pub open spec fn functions_text(
    functions: Seq<ExportedFunctionView>,
    n: nat,
    class_name: Seq<char>,
    base: Seq<char>,
) -> Seq<char>
    decreases n,
{
    if 0 < n <= functions.len() {
        functions_text(functions, (n - 1) as nat, class_name, base) + function_text(
            functions[n - 1],
            class_name,
            base,
        )
    } else {
        Seq::empty()
    }
}

/// What the first `n` of `docs` say of `member`: where it stands twice, the
/// later entry counts.
pub open spec fn doc_of(docs: Seq<MemberDocView>, n: nat, member: Seq<char>) -> Option<Seq<char>>
    decreases n,
{
    if 0 < n <= docs.len() {
        if docs[n - 1].member == member {
            Some(docs[n - 1].text)
        } else {
            doc_of(docs, (n - 1) as nat, member)
        }
    } else {
        None
    }
}

/// The line of one field: its name, its type, and its documentation on the
/// same line.
pub open spec fn field_line(field: FieldView, docs: Seq<MemberDocView>, base: Seq<char>) -> Seq<
    char,
> {
    "---@field "@ + field.name + " "@ + type_name_text(field.ty, base) + match doc_of(
        docs,
        docs.len(),
        field.name,
    ) {
        Some(text) => " "@ + replaced_text(text, '\n', "<br>"@),
        None => Seq::empty(),
    } + "\n"@
}

/// The lines of the first `n` of `fields`.
pub open spec fn field_lines(
    fields: Seq<FieldView>,
    n: nat,
    docs: Seq<MemberDocView>,
    base: Seq<char>,
) -> Seq<char>
    decreases n,
{
    if 0 < n <= fields.len() {
        field_lines(fields, (n - 1) as nat, docs, base) + field_line(fields[n - 1], docs, base)
    } else {
        Seq::empty()
    }
}

/// The fields of `record` as annotations; with `write_class`, below the line
/// that opens the class `class_name`.
pub open spec fn record_fields_text(
    record: RecordView,
    class_name: Seq<char>,
    base: Seq<char>,
    write_class: bool,
) -> Seq<char> {
    if write_class {
        "---@class "@ + class_name + "\n"@ + field_lines(
            record.fields,
            record.fields.len(),
            record.documentation,
            base,
        )
    } else {
        field_lines(record.fields, record.fields.len(), record.documentation, base)
    }
}

/// The functions and methods of `record`, collection by collection. A
/// record without plain functions declares none of the others either.
pub open spec fn record_functions_text(
    record: RecordView,
    class_name: Seq<char>,
    base: Seq<char>,
) -> Seq<char> {
    if record.functions.len() == 0 {
        Seq::empty()
    } else {
        functions_text(record.functions, record.functions.len(), class_name, base)
            + functions_text(record.mut_functions, record.mut_functions.len(), class_name, base)
            + functions_text(record.methods, record.methods.len(), class_name, base)
            + functions_text(record.mut_methods, record.mut_methods.len(), class_name, base)
            + functions_text(record.meta_function, record.meta_function.len(), class_name, base)
            + functions_text(
            record.meta_function_mut,
            record.meta_function_mut.len(),
            class_name,
            base,
        ) + functions_text(record.meta_method, record.meta_method.len(), class_name, base)
            + functions_text(
            record.meta_method_mut,
            record.meta_method_mut.len(),
            class_name,
            base,
        )
    }
}

/// The functions of `record` as declarations; with `write_class`, below the
/// line that makes the table of the class.
pub open spec fn record_methods_text(
    record: RecordView,
    class_name: Seq<char>,
    base: Seq<char>,
    write_class: bool,
) -> Seq<char> {
    if write_class {
        "local "@ + record.name + " = {}\n"@ + record_functions_text(record, class_name, base)
    } else {
        record_functions_text(record, class_name, base)
    }
}

/// One line for each of the first `n` of `variants` of an alias.
pub open spec fn variant_lines(variants: Seq<Seq<char>>, n: nat) -> Seq<char>
    decreases n,
{
    if 0 < n <= variants.len() {
        variant_lines(variants, (n - 1) as nat) + "---|'\""@ + variants[n - 1] + "\"'\n"@
    } else {
        Seq::empty()
    }
}

/// The fields of the inlined records among the first `n` of `types`, which
/// are fields of the library itself.
pub open spec fn base_fields_text(types: Seq<TypeGeneratorView>, n: nat, name: Seq<char>) -> Seq<
    char,
>
    decreases n,
{
    if 0 < n <= types.len() {
        let before = base_fields_text(types, (n - 1) as nat, name);
        match types[n - 1] {
            TypeGeneratorView::Record(record) => if record.should_be_inlined {
                before + record_fields_text(record, name, Seq::empty(), false)
            } else {
                before
            },
            TypeGeneratorView::Enum(_) => before,
        }
    } else {
        Seq::empty()
    }
}

/// The functions of the inlined records among the first `n` of `types`,
/// which are functions of the library itself.
pub open spec fn base_methods_text(types: Seq<TypeGeneratorView>, n: nat, name: Seq<char>) -> Seq<
    char,
>
    decreases n,
{
    if 0 < n <= types.len() {
        let before = base_methods_text(types, (n - 1) as nat, name);
        match types[n - 1] {
            TypeGeneratorView::Record(record) => if record.should_be_inlined {
                before + record_methods_text(record, name, Seq::empty(), false)
            } else {
                before
            },
            TypeGeneratorView::Enum(_) => before,
        }
    } else {
        Seq::empty()
    }
}

/// The declaration of one type that is not inlined: a class for a record,
/// an alias with its variants for an enum.
pub open spec fn class_text(ty: TypeGeneratorView) -> Seq<char> {
    match ty {
        TypeGeneratorView::Record(record) => if record.should_be_inlined {
            Seq::empty()
        } else {
            record_fields_text(record, record.name, Seq::empty(), true) + record_methods_text(
                record,
                record.name,
                Seq::empty(),
                true,
            )
        },
        TypeGeneratorView::Enum(e) => "---@alias "@ + e.name + "\n"@ + variant_lines(
            e.variants,
            e.variants.len(),
        ),
    }
}

/// The declarations of the first `n` of `types`.
pub open spec fn classes_text(types: Seq<TypeGeneratorView>, n: nat) -> Seq<char>
    decreases n,
{
    if 0 < n <= types.len() {
        classes_text(types, (n - 1) as nat) + class_text(types[n - 1])
    } else {
        Seq::empty()
    }
}

/// The declaration of one global instance: a function for one of function
/// type, a typed variable for any other.
pub open spec fn global_text(global: GlobalInstanceView) -> Seq<char> {
    match global.ty {
        TypeView::Function { params, return_types } => function_text(
            ExportedFunctionView { name: global.name, params, return_types, is_meta_method: false },
            Seq::empty(),
            Seq::empty(),
        ),
        _ => "---@type "@ + type_name_text(global.ty, Seq::empty()) + "\n"@ + global.name
            + " = nil\n"@,
    }
}

/// The declarations of the first `n` of `globals`.
pub open spec fn globals_text(globals: Seq<GlobalInstanceView>, n: nat) -> Seq<char>
    decreases n,
{
    if 0 < n <= globals.len() {
        globals_text(globals, (n - 1) as nat) + global_text(globals[n - 1])
    } else {
        Seq::empty()
    }
}

/// The library `name` as the language server reads it: the fields of the
/// library, its table, its functions, the classes and aliases of its types,
/// its globals, and the line that returns the table.
pub open spec fn lua_library_text(name: Seq<char>, graph: TypeWalkerView, is_global: bool) -> Seq<
    char,
> {
    "---@meta\n\n"@ + base_fields_text(graph.given_types, graph.given_types.len(), name) + if is_global {
        Seq::empty()
    } else {
        "local "@
    } + name + " = {}\n"@ + base_methods_text(graph.given_types, graph.given_types.len(), name)
        + classes_text(graph.given_types, graph.given_types.len()) + globals_text(
        graph.global_instances_off,
        graph.global_instances_off.len(),
    ) + "\n return "@ + name
}

fn holds_name(names: &Vec<String>, name: &str) -> (r: bool)
    ensures
        r == views(names@).contains(name@),
{
    let ghost all = views(names@);
    let mut i: usize = 0;
    while i < names.len()
        invariant
            i <= names.len(),
            all == views(names@),
            forall|j: int| 0 <= j < i ==> all[j] != name@,
        decreases names.len() - i,
    {
        if same_str(names[i].as_str(), name) {
            assert(all[i as int] == name@);
            return true;
        }
        i += 1;
    }
    false
}

/// The names of the generic placeholders that the parameters and the
/// results hold, each once.
fn generic_names(params: &Vec<FunctionParam>, return_types: &Vec<Type>) -> (names: Vec<String>)
    ensures
        views(names@) == distinct_generic_names(
            param_leaves_and_results(params_view(*params), types_view(*return_types)),
            param_leaves_and_results(params_view(*params), types_view(*return_types)).len(),
        ),
{
    let mut singles: Vec<SingleType> = Vec::new();
    collect_param_leaves(params, &mut singles);
    collect_leaves_of(return_types, &mut singles);
    let ghost all = views(singles@);
    let mut names: Vec<String> = Vec::new();
    let mut i: usize = 0;
    while i < singles.len()
        invariant
            i <= singles.len(),
            all == views(singles@),
            views(names@) == distinct_generic_names(all, i as nat),
        decreases singles.len() - i,
    {
        if singles[i].kind.is_generic() && !holds_name(&names, singles[i].name.as_str()) {
            names.push(singles[i].name.clone());
        }
        i += 1;
    }
    names
}

/// The leaves of `params`, then those of `return_types`.
pub open spec fn param_leaves_and_results(
    params: Seq<FunctionParamView>,
    return_types: Seq<TypeView>,
) -> Seq<SingleTypeView> {
    function_leaves(
        ExportedFunctionView { name: Seq::empty(), params, return_types, is_meta_method: false },
    )
}

fn declare_function(
    name: &str,
    params: &Vec<FunctionParam>,
    return_types: &Vec<Type>,
    class_name: &str,
    base: &str,
) -> (text: String)
    ensures
        text@ == function_text(
            ExportedFunctionView {
                name: name@,
                params: params_view(*params),
                return_types: types_view(*return_types),
                is_meta_method: false,
            },
            class_name@,
            base@,
        ),
{
    let ghost all_params = params_view(*params);
    let ghost all_results = types_view(*return_types);
    let generics = generic_names(params, return_types);
    let ghost all_generics = views(generics@);
    let mut text = String::new();
    let mut i: usize = 0;
    while i < generics.len()
        invariant
            i <= generics.len(),
            all_generics == views(generics@),
            text@ == generic_lines(all_generics, i as nat),
        decreases generics.len() - i,
    {
        text.append("---@generic ");
        text.append(generics[i].as_str());
        text.append("\n");
        i += 1;
    }
    let ghost generic_part = text@;
    let mut names = String::new();
    let mut k: usize = 0;
    while k < params.len()
        invariant
            k <= params.len(),
            all_params == params_view(*params),
            text@ == generic_part + param_lines(all_params, k as nat, base@),
            names@ == param_names(all_params, k as nat),
        decreases params.len() - k,
    {
        let name_of_param = param_name(&params[k], k + 1);
        text.append("---@param ");
        text.append(name_of_param.as_str());
        text.append(" ");
        text.append(type_to_name(&params[k].ty, base).as_str());
        text.append("\n");
        if k > 0 {
            names.append(",");
        }
        names.append(name_of_param.as_str());
        k += 1;
    }
    let ghost param_part = text@;
    let mut r: usize = 0;
    while r < return_types.len()
        invariant
            r <= return_types.len(),
            all_results == types_view(*return_types),
            text@ == param_part + return_lines(all_results, r as nat, base@),
        decreases return_types.len() - r,
    {
        text.append("---@return ");
        text.append(type_to_name(&return_types[r], base).as_str());
        text.append("\n");
        r += 1;
    }
    text.append("function ");
    if !class_name.is_empty() {
        text.append(class_name);
        text.append(".");
    }
    text.append(name);
    text.append("(");
    text.append(names.as_str());
    text.append(") end\n");
    text
}

/// The declaration of `function` below `class_name`, as [`function_text`]
/// says.
pub fn write_function(function: &ExportedFunction, class_name: &str, base: &str) -> (text: String)
    ensures
        text@ == function_text(function@, class_name@, base@),
{
    declare_function(
        function.name.as_str(),
        &function.params,
        &function.return_types,
        class_name,
        base,
    )
}

fn write_functions(
    functions: &Vec<ExportedFunction>,
    class_name: &str,
    base: &str,
    text: &mut String,
)
    ensures
        final(text)@ == old(text)@ + functions_text(
            views(functions@),
            functions.len() as nat,
            class_name@,
            base@,
        ),
{
    let ghost start = text@;
    let ghost all = views(functions@);
    let mut i: usize = 0;
    while i < functions.len()
        invariant
            i <= functions.len(),
            all == views(functions@),
            text@ == start + functions_text(all, i as nat, class_name@, base@),
        decreases functions.len() - i,
    {
        text.append(write_function(&functions[i], class_name, base).as_str());
        i += 1;
    }
}

fn find_doc<'a>(docs: &'a Vec<MemberDoc>, member: &str) -> (text: Option<&'a String>)
    ensures
        match text {
            Some(text) => doc_of(views(docs@), docs.len() as nat, member@) == Some(text@),
            None => doc_of(views(docs@), docs.len() as nat, member@) is None,
        },
{
    let ghost all = views(docs@);
    let mut n: usize = docs.len();
    while n > 0
        invariant
            n <= docs.len(),
            all == views(docs@),
            doc_of(all, docs.len() as nat, member@) == doc_of(all, n as nat, member@),
        decreases n,
    {
        if same_str(docs[n - 1].member.as_str(), member) {
            return Some(&docs[n - 1].text);
        }
        n -= 1;
    }
    None
}

fn write_field_lines(fields: &Vec<Field>, docs: &Vec<MemberDoc>, base: &str, text: &mut String)
    ensures
        final(text)@ == old(text)@ + field_lines(
            views(fields@),
            fields.len() as nat,
            views(docs@),
            base@,
        ),
{
    let ghost start = text@;
    let ghost all = views(fields@);
    let ghost all_docs = views(docs@);
    let mut i: usize = 0;
    while i < fields.len()
        invariant
            i <= fields.len(),
            all == views(fields@),
            all_docs == views(docs@),
            text@ == start + field_lines(all, i as nat, all_docs, base@),
        decreases fields.len() - i,
    {
        let field = &fields[i];
        let mut line = concat_str("---@field ", field.name.as_str());
        line.append(" ");
        line.append(type_to_name(&field.ty, base).as_str());
        if let Some(doc) = find_doc(docs, field.name.as_str()) {
            line.append(" ");
            line.append(replace_char(doc.as_str(), '\n', "<br>").as_str());
        }
        line.append("\n");
        text.append(line.as_str());
        i += 1;
    }
}

fn write_record_functions(generator: &RecordGenerator, class_name: &str, base: &str) -> (text:
    String)
    ensures
        text@ == record_functions_text(generator@, class_name@, base@),
{
    let mut text = String::new();
    if generator.functions.len() > 0 {
        write_functions(&generator.functions, class_name, base, &mut text);
        write_functions(&generator.mut_functions, class_name, base, &mut text);
        write_functions(&generator.methods, class_name, base, &mut text);
        write_functions(&generator.mut_methods, class_name, base, &mut text);
        write_functions(&generator.meta_function, class_name, base, &mut text);
        write_functions(&generator.meta_function_mut, class_name, base, &mut text);
        write_functions(&generator.meta_method, class_name, base, &mut text);
        write_functions(&generator.meta_method_mut, class_name, base, &mut text);
    }
    text
}

/// The declarations of `generator` as a class: its fields as annotations,
/// and its functions below `class_name`. With `write_class` the class is
/// opened and its table is made; without, the members stand alone.
pub fn write_record_as_class(
    base: &str,
    class_name: &str,
    generator: &RecordGenerator,
    write_class: bool,
) -> (text: (String, String))
    ensures
        text.0@ == record_fields_text(generator@, class_name@, base@, write_class),
        text.1@ == record_methods_text(generator@, class_name@, base@, write_class),
{
    let mut fields = String::new();
    if write_class {
        fields.append("---@class ");
        fields.append(class_name);
        fields.append("\n");
    }
    write_field_lines(&generator.fields, &generator.documentation, base, &mut fields);
    let mut methods = String::new();
    if write_class {
        methods.append("local ");
        methods.append(generator.name.as_str());
        methods.append(" = {}\n");
    }
    methods.append(write_record_functions(generator, class_name, base).as_str());
    (fields, methods)
}

fn write_class(ty: &TypeGenerator) -> (text: String)
    ensures
        text@ == class_text(ty@),
{
    match ty {
        TypeGenerator::Record(record) => {
            if record.should_be_inlined {
                String::new()
            } else {
                let (fields, methods) = write_record_as_class(
                    "",
                    record.name.as_str(),
                    record,
                    true,
                );
                proof {
                    reveal_strlit("");
                    assert(""@ =~= Seq::<char>::empty());
                }
                concat_str(fields.as_str(), methods.as_str())
            }
        },
        TypeGenerator::Enum(e) => {
            let mut text = concat_str("---@alias ", e.name.as_str());
            text.append("\n");
            let ghost start = text@;
            let ghost all = views(e.variants@);
            let mut i: usize = 0;
            while i < e.variants.len()
                invariant
                    i <= e.variants.len(),
                    all == views(e.variants@),
                    text@ == start + variant_lines(all, i as nat),
                decreases e.variants.len() - i,
            {
                text.append("---|'\"");
                text.append(e.variants[i].as_str());
                text.append("\"'\n");
                i += 1;
            }
            text
        },
    }
}

fn write_global(global: &GlobalInstance) -> (text: String)
    ensures
        text@ == global_text(global@),
{
    proof {
        reveal_strlit("");
        assert(""@ =~= Seq::<char>::empty());
    }
    match &global.ty {
        Type::Function(f) => declare_function(
            global.name.as_str(),
            &f.params,
            &f.return_types,
            "",
            "",
        ),
        _ => {
            let mut text = concat_str("---@type ", type_to_name(&global.ty, "").as_str());
            text.append("\n");
            text.append(global.name.as_str());
            text.append(" = nil\n");
            text
        },
    }
}

fn write_types(types: &Vec<TypeGenerator>, name: &str) -> (text: (String, String, String))
    ensures
        text.0@ == base_fields_text(views(types@), types.len() as nat, name@),
        text.1@ == base_methods_text(views(types@), types.len() as nat, name@),
        text.2@ == classes_text(views(types@), types.len() as nat),
{
    let ghost all = views(types@);
    let mut base_fields = String::new();
    let mut base_methods = String::new();
    let mut classes = String::new();
    proof {
        reveal_strlit("");
    }
    let mut i: usize = 0;
    while i < types.len()
        invariant
            i <= types.len(),
            all == views(types@),
            ""@ == Seq::<char>::empty(),
            base_fields@ == base_fields_text(all, i as nat, name@),
            base_methods@ == base_methods_text(all, i as nat, name@),
            classes@ == classes_text(all, i as nat),
        decreases types.len() - i,
    {
        match &types[i] {
            TypeGenerator::Record(record) => {
                if record.should_be_inlined {
                    let (fields, methods) = write_record_as_class("", name, record, false);
                    base_fields.append(fields.as_str());
                    base_methods.append(methods.as_str());
                }
            },
            TypeGenerator::Enum(_) => {},
        }
        classes.append(write_class(&types[i]).as_str());
        i += 1;
    }
    (base_fields, base_methods, classes)
}

fn write_globals(globals: &Vec<GlobalInstance>) -> (text: String)
    ensures
        text@ == globals_text(views(globals@), globals.len() as nat),
{
    let ghost all = views(globals@);
    let mut text = String::new();
    let mut i: usize = 0;
    while i < globals.len()
        invariant
            i <= globals.len(),
            all == views(globals@),
            text@ == globals_text(all, i as nat),
        decreases globals.len() - i,
    {
        text.append(write_global(&globals[i]).as_str());
        i += 1;
    }
    text
}

/// The library `name` as annotated Lua declarations, as
/// [`lua_library_text`] says.
pub fn to_lua(name: &str, type_defs: &TypeWalker, is_global: bool) -> (file: String)
    ensures
        file@ == lua_library_text(name@, type_defs@, is_global),
{
    let (base_fields, base_methods, classes) = write_types(&type_defs.given_types, name);
    let globals = write_globals(&type_defs.global_instances_off);
    let mut file = "---@meta\n\n".to_owned();
    file.append(base_fields.as_str());
    if !is_global {
        file.append("local ");
    }
    file.append(name);
    file.append(" = {}\n");
    file.append(base_methods.as_str());
    file.append(classes.as_str());
    file.append(globals.as_str());
    file.append("\n return ");
    file.append(name);
    file
}

/// The manifest of the addon.
#[derive(Clone, Debug, PartialEq, Eq)]
pub struct LuaAddonConfig {
    pub name: String,
    pub words: Vec<String>,
    pub files: Vec<String>,
    pub settings: Vec<(String, serde_json::Value)>,
}

/// What the archive of the addon holds.
#[derive(Clone, Debug, PartialEq, Eq)]
pub struct AddonArchive {
    /// The file name of the archive.
    pub zip_name: String,
    /// The file in the archive that holds the manifest.
    pub manifest_file: String,
    pub config: LuaAddonConfig,
    /// The folder in the archive that holds the declarations.
    pub library_folder: String,
    /// The file in the archive that holds the declarations.
    pub library_file: String,
    /// The declarations of the library.
    pub library: String,
}

/// Whether `archive` is the addon that `addon_config` asks for, for the
/// library `name` that `graph` describes: none where none is asked for; else
/// the archive called after the library, with the manifest as it is
/// configured in `plugin.json`, and the declarations of the library in the
/// folder `library`.
pub open spec fn is_addon_for(
    archive: Option<AddonArchive>,
    addon_config: LuaAddon,
    name: Seq<char>,
    graph: TypeWalkerView,
    is_global: bool,
) -> bool {
    match addon_config {
        LuaAddon::False => archive is None,
        LuaAddon::Create { words, files, settings } => {
            &&& archive matches Some(archive)
            &&& archive.zip_name@ == name + ".zip"@
            &&& archive.manifest_file@ == "plugin.json"@
            &&& archive.config.name@ == name
            &&& archive.config.words == words
            &&& archive.config.files == files
            &&& archive.config.settings == settings
            &&& archive.library_folder@ == "library"@
            &&& archive.library_file@ == "library/"@ + name + ".lua"@
            &&& archive.library@ == lua_library_text(name, graph, is_global)
        },
    }
}

/// The addon that `addon_config` asks for, for the library `library_name`
/// that `type_defs` describes, as [`is_addon_for`] says.
pub fn create_lua_addon(
    addon_config: LuaAddon,
    type_defs: &TypeWalker,
    is_global: bool,
    library_name: &str,
) -> (archive: Option<AddonArchive>)
    ensures
        is_addon_for(archive, addon_config, library_name@, type_defs@, is_global),
{
    match addon_config {
        LuaAddon::False => None,
        LuaAddon::Create { words, files, settings } => {
            let mut library_file = concat_str("library/", library_name);
            library_file.append(".lua");
            Some(
                AddonArchive {
                    zip_name: concat_str(library_name, ".zip"),
                    manifest_file: "plugin.json".to_owned(),
                    config: LuaAddonConfig {
                        name: library_name.to_owned(),
                        words,
                        files,
                        settings,
                    },
                    library_folder: "library".to_owned(),
                    library_file,
                    library: to_lua(library_name, type_defs, is_global),
                },
            )
        },
    }
}

} // verus!
