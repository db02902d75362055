//! Cross references: which records and globals use a given type, and how.

use crate::text::same_str;
use crate::type_generator::{
    ExportedFunction, ExportedFunctionView, Field, FieldView, RecordGenerator, RecordView,
    TypeGenerator, TypeGeneratorView,
};
use crate::type_model::{
    leaves_of, mentions, named_in, param_leaves, params_mention, type_mentions, types_mention,
    views, Type, TypeView,
};
use crate::type_walker::{GlobalInstance, GlobalInstanceView, TypeWalker, TypeWalkerView};
use vstd::prelude::*;

verus! {

/// A member that uses a type: its name and its full type.
#[derive(Clone, Debug, PartialEq, Eq)]
pub struct NameAndSignature {
    pub name: String,
    pub signature: Type,
}

/// What a [`NameAndSignature`] stands for.
pub struct NameAndSignatureView {
    pub name: Seq<char>,
    pub signature: TypeView,
}

impl View for NameAndSignature {
    type V = NameAndSignatureView;

    open spec fn view(&self) -> NameAndSignatureView {
        NameAndSignatureView { name: self.name@, signature: self.signature@ }
    }
}

/// How another type uses a type.
#[derive(Clone, Debug, PartialEq, Eq)]
pub struct User {
    /// The name of the type that uses it.
    pub name: String,
    /// The functions and methods that take it as a parameter.
    pub as_params: Vec<NameAndSignature>,
    /// The functions and methods that return it.
    pub as_return: Vec<NameAndSignature>,
    /// The fields whose type holds it somewhere.
    pub as_fields: Vec<NameAndSignature>,
}

/// What an [`User`] stands for.
pub struct UserView {
    pub name: Seq<char>,
    pub as_params: Seq<NameAndSignatureView>,
    pub as_return: Seq<NameAndSignatureView>,
    pub as_fields: Seq<NameAndSignatureView>,
}

impl View for User {
    type V = UserView;

    open spec fn view(&self) -> UserView {
        UserView {
            name: self.name@,
            as_params: views(self.as_params@),
            as_return: views(self.as_return@),
            as_fields: views(self.as_fields@),
        }
    }
}

/// Whether a parameter of `function` mentions the type named `target`.
pub open spec fn takes(function: ExportedFunctionView, target: Seq<char>) -> bool {
    named_in(param_leaves(function.params, function.params.len()), target)
}

/// Whether `function` returns something that mentions the type named `target`.
pub open spec fn gives(function: ExportedFunctionView, target: Seq<char>) -> bool {
    named_in(leaves_of(function.return_types, function.return_types.len()), target)
}

/// The use that a function or method makes of a type: its name and its signature.
pub open spec fn function_use(function: ExportedFunctionView) -> NameAndSignatureView {
    NameAndSignatureView { name: function.name, signature: function.signature() }
}

/// The use that a field makes of a type: its name and its type.
pub open spec fn field_use(field: FieldView) -> NameAndSignatureView {
    NameAndSignatureView { name: field.name, signature: field.ty }
}

/// Those of the first `n` of `fields` whose type mentions `target`.
pub open spec fn field_uses(fields: Seq<FieldView>, n: nat, target: Seq<char>) -> Seq<
    NameAndSignatureView,
>
    decreases n,
{
    if 0 < n <= fields.len() {
        let before = field_uses(fields, (n - 1) as nat, target);
        if mentions(fields[n - 1].ty, target) {
            before.push(field_use(fields[n - 1]))
        } else {
            before
        }
    } else {
        Seq::empty()
    }
}

/// Those of the first `n` of `functions` that take `target` as a parameter.
pub open spec fn param_uses(functions: Seq<ExportedFunctionView>, n: nat, target: Seq<char>) -> Seq<
    NameAndSignatureView,
>
    decreases n,
{
    if 0 < n <= functions.len() {
        let before = param_uses(functions, (n - 1) as nat, target);
        if takes(functions[n - 1], target) {
            before.push(function_use(functions[n - 1]))
        } else {
            before
        }
    } else {
        Seq::empty()
    }
}

/// Those of the first `n` of `functions` that return `target`.
pub open spec fn return_uses(
    functions: Seq<ExportedFunctionView>,
    n: nat,
    target: Seq<char>,
) -> Seq<NameAndSignatureView>
    decreases n,
{
    if 0 < n <= functions.len() {
        let before = return_uses(functions, (n - 1) as nat, target);
        if gives(functions[n - 1], target) {
            before.push(function_use(functions[n - 1]))
        } else {
            before
        }
    } else {
        Seq::empty()
    }
}

/// The functions and methods of `record` that take `target`, collection by
/// collection.
pub open spec fn record_param_uses(record: RecordView, target: Seq<char>) -> Seq<
    NameAndSignatureView,
> {
    param_uses(record.functions, record.functions.len(), target) + param_uses(
        record.mut_functions,
        record.mut_functions.len(),
        target,
    ) + param_uses(record.methods, record.methods.len(), target) + param_uses(
        record.mut_methods,
        record.mut_methods.len(),
        target,
    ) + param_uses(record.meta_function, record.meta_function.len(), target) + param_uses(
        record.meta_function_mut,
        record.meta_function_mut.len(),
        target,
    ) + param_uses(record.meta_method, record.meta_method.len(), target) + param_uses(
        record.meta_method_mut,
        record.meta_method_mut.len(),
        target,
    )
}

/// The functions and methods of `record` that return `target`, collection by
/// collection.
pub open spec fn record_return_uses(record: RecordView, target: Seq<char>) -> Seq<
    NameAndSignatureView,
> {
    return_uses(record.functions, record.functions.len(), target) + return_uses(
        record.mut_functions,
        record.mut_functions.len(),
        target,
    ) + return_uses(record.methods, record.methods.len(), target) + return_uses(
        record.mut_methods,
        record.mut_methods.len(),
        target,
    ) + return_uses(record.meta_function, record.meta_function.len(), target) + return_uses(
        record.meta_function_mut,
        record.meta_function_mut.len(),
        target,
    ) + return_uses(record.meta_method, record.meta_method.len(), target) + return_uses(
        record.meta_method_mut,
        record.meta_method_mut.len(),
        target,
    )
}

/// The fields of `record` that hold `target`: the instance fields, then the
/// static ones.
pub open spec fn record_field_uses(record: RecordView, target: Seq<char>) -> Seq<
    NameAndSignatureView,
> {
    field_uses(record.fields, record.fields.len(), target) + field_uses(
        record.static_fields,
        record.static_fields.len(),
        target,
    )
}

/// Whether `record` is the type named `target` itself.
pub open spec fn owns(record: RecordView, target: Seq<char>) -> bool {
    record.ty matches TypeView::Single(single) && single.name == target
}

/// How `record` uses the type named `target`, if it does.
pub open spec fn record_user(record: RecordView, target: Seq<char>) -> Option<UserView> {
    let as_params = record_param_uses(record, target);
    let as_return = record_return_uses(record, target);
    let as_fields = record_field_uses(record, target);
    if as_params.len() == 0 && as_return.len() == 0 && as_fields.len() == 0 {
        None
    } else {
        Some(UserView { name: record.name, as_params, as_return, as_fields })
    }
}

/// The users of `target` among the first `n` of `types`: the records that
/// use it, but for the record that is `target` itself.
pub open spec fn users_among(types: Seq<TypeGeneratorView>, n: nat, target: Seq<char>) -> Seq<
    UserView,
>
    decreases n,
{
    if 0 < n <= types.len() {
        let before = users_among(types, (n - 1) as nat, target);
        match types[n - 1] {
            TypeGeneratorView::Record(record) => if owns(record, target) {
                before
            } else {
                match record_user(record, target) {
                    Some(user) => before.push(user),
                    None => before,
                }
            },
            TypeGeneratorView::Enum(_) => before,
        }
    } else {
        Seq::empty()
    }
}

/// The name under which the global instances count as one user.
pub open spec fn globals_name() -> Seq<char> {
    "global"@
}

/// The use that a global instance makes of a type: its name and its type.
pub open spec fn global_use(global: GlobalInstanceView) -> NameAndSignatureView {
    NameAndSignatureView { name: global.name, signature: global.ty }
}

/// Those of the first `n` of `globals` whose type mentions `target`.
pub open spec fn global_uses(globals: Seq<GlobalInstanceView>, n: nat, target: Seq<char>) -> Seq<
    NameAndSignatureView,
>
    decreases n,
{
    if 0 < n <= globals.len() {
        let before = global_uses(globals, (n - 1) as nat, target);
        if mentions(globals[n - 1].ty, target) {
            before.push(global_use(globals[n - 1]))
        } else {
            before
        }
    } else {
        Seq::empty()
    }
}

/// The global instances as one user of `target`, each global being a field
/// of it; none where no global mentions `target`.
pub open spec fn globals_user(globals: Seq<GlobalInstanceView>, target: Seq<char>) -> Seq<
    UserView,
> {
    let as_fields = global_uses(globals, globals.len(), target);
    if as_fields.len() == 0 {
        Seq::empty()
    } else {
        seq![
            UserView {
                name: globals_name(),
                as_params: Seq::empty(),
                as_return: Seq::empty(),
                as_fields,
            },
        ]
    }
}

/// Every user of the type named `target` in `graph`: the records in their
/// order, then the global instances.
pub open spec fn users_of_name(target: Seq<char>, graph: TypeWalkerView) -> Seq<UserView> {
    users_among(graph.given_types, graph.given_types.len(), target) + globals_user(
        graph.global_instances_off,
        target,
    )
}

/// Every user of `target` in `graph`. A type that no single type refers to
/// has no users.
pub open spec fn users_of(target: TypeGeneratorView, graph: TypeWalkerView) -> Seq<UserView> {
    match target.single() {
        Some(single) => users_of_name(single.name, graph),
        None => Seq::empty(),
    }
}

/// Whether a field of `record`, or a parameter or a result of one of its
/// functions and methods, mentions the type named `target`.
pub open spec fn record_refers(record: RecordView, target: Seq<char>) -> bool {
    ||| exists|i: int|
        0 <= i < record.fields.len() && mentions(#[trigger] record.fields[i].ty, target)
    ||| exists|i: int|
        0 <= i < record.static_fields.len() && mentions(
            #[trigger] record.static_fields[i].ty,
            target,
        )
    ||| any_function_refers(record.functions, target)
    ||| any_function_refers(record.mut_functions, target)
    ||| any_function_refers(record.methods, target)
    ||| any_function_refers(record.mut_methods, target)
    ||| any_function_refers(record.meta_function, target)
    ||| any_function_refers(record.meta_function_mut, target)
    ||| any_function_refers(record.meta_method, target)
    ||| any_function_refers(record.meta_method_mut, target)
}

/// Whether one of `functions` takes or returns the type named `target`.
pub open spec fn any_function_refers(
    functions: Seq<ExportedFunctionView>,
    target: Seq<char>,
) -> bool {
    exists|i: int|
        0 <= i < functions.len() && (takes(#[trigger] functions[i], target) || gives(
            functions[i],
            target,
        ))
}

/// Whether a global instance has a type that mentions the type named `target`.
pub open spec fn any_global_refers(globals: Seq<GlobalInstanceView>, target: Seq<char>) -> bool {
    exists|i: int| 0 <= i < globals.len() && mentions(#[trigger] globals[i].ty, target)
}

/// Whether the type at `types[i]` counts as a user of the type named
/// `target`: a record that is not `target` itself and refers to it.
pub open spec fn uses_at(types: Seq<TypeGeneratorView>, i: int, target: Seq<char>) -> bool {
    types[i] matches TypeGeneratorView::Record(record) && !owns(record, target) && record_refers(
        record,
        target,
    )
}

proof fn lemma_no_field_uses(fields: Seq<FieldView>, n: nat, target: Seq<char>)
    requires
        n <= fields.len(),
        forall|i: int| 0 <= i < n ==> !mentions(#[trigger] fields[i].ty, target),
    ensures
        field_uses(fields, n, target) == Seq::<NameAndSignatureView>::empty(),
    decreases n,
{
    if n > 0 {
        lemma_no_field_uses(fields, (n - 1) as nat, target);
    }
}

proof fn lemma_one_field_use(fields: Seq<FieldView>, n: nat, k: int, target: Seq<char>)
    requires
        n <= fields.len(),
        0 <= k < n,
        forall|i: int| 0 <= i < n ==> (mentions(#[trigger] fields[i].ty, target) <==> i == k),
    ensures
        field_uses(fields, n, target) == seq![field_use(fields[k])],
    decreases n,
{
    if k == n - 1 {
        lemma_no_field_uses(fields, (n - 1) as nat, target);
    } else {
        lemma_one_field_use(fields, (n - 1) as nat, k, target);
    }
}

proof fn lemma_no_function_uses(functions: Seq<ExportedFunctionView>, n: nat, target: Seq<char>)
    requires
        n <= functions.len(),
        !any_function_refers(functions, target),
    ensures
        param_uses(functions, n, target) == Seq::<NameAndSignatureView>::empty(),
        return_uses(functions, n, target) == Seq::<NameAndSignatureView>::empty(),
    decreases n,
{
    if n > 0 {
        lemma_no_function_uses(functions, (n - 1) as nat, target);
    }
}

proof fn lemma_no_global_uses(globals: Seq<GlobalInstanceView>, n: nat, target: Seq<char>)
    requires
        n <= globals.len(),
        !any_global_refers(globals, target),
    ensures
        global_uses(globals, n, target) == Seq::<NameAndSignatureView>::empty(),
    decreases n,
{
    if n > 0 {
        lemma_no_global_uses(globals, (n - 1) as nat, target);
    }
}

proof fn lemma_functions_of_record_unused(record: RecordView, target: Seq<char>)
    requires
        !any_function_refers(record.functions, target),
        !any_function_refers(record.mut_functions, target),
        !any_function_refers(record.methods, target),
        !any_function_refers(record.mut_methods, target),
        !any_function_refers(record.meta_function, target),
        !any_function_refers(record.meta_function_mut, target),
        !any_function_refers(record.meta_method, target),
        !any_function_refers(record.meta_method_mut, target),
    ensures
        record_param_uses(record, target) == Seq::<NameAndSignatureView>::empty(),
        record_return_uses(record, target) == Seq::<NameAndSignatureView>::empty(),
{
    lemma_no_function_uses(record.functions, record.functions.len(), target);
    lemma_no_function_uses(record.mut_functions, record.mut_functions.len(), target);
    lemma_no_function_uses(record.methods, record.methods.len(), target);
    lemma_no_function_uses(record.mut_methods, record.mut_methods.len(), target);
    lemma_no_function_uses(record.meta_function, record.meta_function.len(), target);
    lemma_no_function_uses(record.meta_function_mut, record.meta_function_mut.len(), target);
    lemma_no_function_uses(record.meta_method, record.meta_method.len(), target);
    lemma_no_function_uses(record.meta_method_mut, record.meta_method_mut.len(), target);
}

proof fn lemma_record_that_does_not_refer(record: RecordView, target: Seq<char>)
    requires
        !record_refers(record, target),
    ensures
        record_user(record, target) is None,
{
    lemma_functions_of_record_unused(record, target);
    lemma_no_field_uses(record.fields, record.fields.len(), target);
    lemma_no_field_uses(record.static_fields, record.static_fields.len(), target);
}

proof fn lemma_no_users_among(types: Seq<TypeGeneratorView>, n: nat, target: Seq<char>)
    requires
        n <= types.len(),
        forall|i: int| 0 <= i < n ==> !uses_at(types, i, target),
    ensures
        users_among(types, n, target) == Seq::<UserView>::empty(),
    decreases n,
{
    if n > 0 {
        lemma_no_users_among(types, (n - 1) as nat, target);
        assert(!uses_at(types, n - 1, target));
        if let TypeGeneratorView::Record(record) = types[n - 1] {
            if !owns(record, target) {
                lemma_record_that_does_not_refer(record, target);
            }
        }
    }
}

proof fn lemma_one_user_among(
    types: Seq<TypeGeneratorView>,
    n: nat,
    k: int,
    user: UserView,
    target: Seq<char>,
)
    requires
        n <= types.len(),
        0 <= k < n,
        forall|i: int| 0 <= i < n && i != k ==> !uses_at(types, i, target),
        types[k] matches TypeGeneratorView::Record(record) && !owns(record, target) && record_user(
            record,
            target,
        ) == Some(user),
    ensures
        users_among(types, n, target) == seq![user],
    decreases n,
{
    if k == n - 1 {
        lemma_no_users_among(types, (n - 1) as nat, target);
    } else {
        lemma_one_user_among(types, (n - 1) as nat, k, user, target);
        assert(!uses_at(types, n - 1, target));
        if let TypeGeneratorView::Record(record) = types[n - 1] {
            if !owns(record, target) {
                lemma_record_that_does_not_refer(record, target);
            }
        }
    }
}

/// A type that nothing refers to has no users: where no record but the type
/// itself has a field, a parameter or a result that mentions it, and no
/// global instance does, the list of its users is empty.
pub proof fn lemma_unreferenced_type_has_no_users(
    target: TypeGeneratorView,
    graph: TypeWalkerView,
)
    requires
        target.single() matches Some(single) ==> {
            &&& forall|i: int|
                0 <= i < graph.given_types.len() ==> !uses_at(graph.given_types, i, single.name)
            &&& !any_global_refers(graph.global_instances_off, single.name)
        },
    ensures
        users_of(target, graph) == Seq::<UserView>::empty(),
{
    if let Some(single) = target.single() {
        lemma_no_users_among(graph.given_types, graph.given_types.len(), single.name);
        lemma_no_global_uses(
            graph.global_instances_off,
            graph.global_instances_off.len(),
            single.name,
        );
    }
}

/// A type that is referred to once, as one field of one other record, has
/// that record as its only user, with that field as its only use: where the
/// field `record.fields[field]` of the record at `graph.given_types[at]`
/// mentions `target`, and no other field, no function or method, no other
/// record and no global instance does, the users of `target` are that one
/// record, with the field under `as_fields` and nothing under `as_params`
/// and `as_return`.
pub proof fn lemma_single_field_reference_has_one_user(
    target: TypeGeneratorView,
    graph: TypeWalkerView,
    at: int,
    record: RecordView,
    field: int,
)
    requires
        target.single() is Some,
        0 <= at < graph.given_types.len(),
        graph.given_types[at] == TypeGeneratorView::Record(record),
        !owns(record, target.single()->0.name),
        0 <= field < record.fields.len(),
        forall|i: int|
            0 <= i < record.fields.len() ==> (mentions(
                #[trigger] record.fields[i].ty,
                target.single()->0.name,
            ) <==> i == field),
        forall|i: int|
            0 <= i < record.static_fields.len() ==> !mentions(
                #[trigger] record.static_fields[i].ty,
                target.single()->0.name,
            ),
        !any_function_refers(record.functions, target.single()->0.name),
        !any_function_refers(record.mut_functions, target.single()->0.name),
        !any_function_refers(record.methods, target.single()->0.name),
        !any_function_refers(record.mut_methods, target.single()->0.name),
        !any_function_refers(record.meta_function, target.single()->0.name),
        !any_function_refers(record.meta_function_mut, target.single()->0.name),
        !any_function_refers(record.meta_method, target.single()->0.name),
        !any_function_refers(record.meta_method_mut, target.single()->0.name),
        forall|i: int|
            0 <= i < graph.given_types.len() && i != at ==> !uses_at(
                graph.given_types,
                i,
                target.single()->0.name,
            ),
        !any_global_refers(graph.global_instances_off, target.single()->0.name),
    ensures
        users_of(target, graph) == seq![
            UserView {
                name: record.name,
                as_params: Seq::empty(),
                as_return: Seq::empty(),
                as_fields: seq![field_use(record.fields[field])],
            },
        ],
{
    let name = target.single()->0.name;
    lemma_functions_of_record_unused(record, name);
    lemma_one_field_use(record.fields, record.fields.len(), field, name);
    lemma_no_field_uses(record.static_fields, record.static_fields.len(), name);
    let user = UserView {
        name: record.name,
        as_params: Seq::empty(),
        as_return: Seq::empty(),
        as_fields: seq![field_use(record.fields[field])],
    };
    lemma_one_user_among(graph.given_types, graph.given_types.len(), at, user, name);
    lemma_no_global_uses(graph.global_instances_off, graph.global_instances_off.len(), name);
}

/// The same holds of a static field: a type that is referred to once, as one
/// static field of one other record, has that record as its only user, with
/// that field as its only use.
pub proof fn lemma_single_static_field_reference_has_one_user(
    target: TypeGeneratorView,
    graph: TypeWalkerView,
    at: int,
    record: RecordView,
    field: int,
)
    requires
        target.single() is Some,
        0 <= at < graph.given_types.len(),
        graph.given_types[at] == TypeGeneratorView::Record(record),
        !owns(record, target.single()->0.name),
        0 <= field < record.static_fields.len(),
        forall|i: int|
            0 <= i < record.static_fields.len() ==> (mentions(
                #[trigger] record.static_fields[i].ty,
                target.single()->0.name,
            ) <==> i == field),
        forall|i: int|
            0 <= i < record.fields.len() ==> !mentions(
                #[trigger] record.fields[i].ty,
                target.single()->0.name,
            ),
        !any_function_refers(record.functions, target.single()->0.name),
        !any_function_refers(record.mut_functions, target.single()->0.name),
        !any_function_refers(record.methods, target.single()->0.name),
        !any_function_refers(record.mut_methods, target.single()->0.name),
        !any_function_refers(record.meta_function, target.single()->0.name),
        !any_function_refers(record.meta_function_mut, target.single()->0.name),
        !any_function_refers(record.meta_method, target.single()->0.name),
        !any_function_refers(record.meta_method_mut, target.single()->0.name),
        forall|i: int|
            0 <= i < graph.given_types.len() && i != at ==> !uses_at(
                graph.given_types,
                i,
                target.single()->0.name,
            ),
        !any_global_refers(graph.global_instances_off, target.single()->0.name),
    ensures
        users_of(target, graph) == seq![
            UserView {
                name: record.name,
                as_params: Seq::empty(),
                as_return: Seq::empty(),
                as_fields: seq![field_use(record.static_fields[field])],
            },
        ],
{
    let name = target.single()->0.name;
    lemma_functions_of_record_unused(record, name);
    lemma_no_field_uses(record.fields, record.fields.len(), name);
    lemma_one_field_use(record.static_fields, record.static_fields.len(), field, name);
    let user = UserView {
        name: record.name,
        as_params: Seq::empty(),
        as_return: Seq::empty(),
        as_fields: seq![field_use(record.static_fields[field])],
    };
    assert(record_field_uses(record, name) =~= user.as_fields);
    assert(record_user(record, name) == Some(user));
    lemma_one_user_among(graph.given_types, graph.given_types.len(), at, user, name);
    lemma_no_global_uses(graph.global_instances_off, graph.global_instances_off.len(), name);
    assert(users_of(target, graph) =~= seq![user]);
}

fn scan_fields(fields: &Vec<Field>, target: &str, found: &mut Vec<NameAndSignature>)
    ensures
        views(final(found)@) == views(old(found)@) + field_uses(
            views(fields@),
            fields.len() as nat,
            target@,
        ),
{
    let ghost all = views(fields@);
    let ghost start = views(found@);
    let mut i: usize = 0;
    while i < fields.len()
        invariant
            i <= fields.len(),
            all == views(fields@),
            views(found@) == start + field_uses(all, i as nat, target@),
        decreases fields.len() - i,
    {
        let field = &fields[i];
        if type_mentions(&field.ty, target) {
            let ghost before = found@;
            found.push(NameAndSignature { name: field.name.clone(), signature: field.ty.clone() });
            assert(views(found@) =~= views(before).push(field_use(all[i as int])));
        }
        i += 1;
    }
}

fn scan_functions(
    functions: &Vec<ExportedFunction>,
    target: &str,
    as_params: &mut Vec<NameAndSignature>,
    as_return: &mut Vec<NameAndSignature>,
)
    ensures
        views(final(as_params)@) == views(old(as_params)@) + param_uses(
            views(functions@),
            functions.len() as nat,
            target@,
        ),
        views(final(as_return)@) == views(old(as_return)@) + return_uses(
            views(functions@),
            functions.len() as nat,
            target@,
        ),
{
    let ghost all = views(functions@);
    let ghost start_params = views(as_params@);
    let ghost start_return = views(as_return@);
    let mut i: usize = 0;
    while i < functions.len()
        invariant
            i <= functions.len(),
            all == views(functions@),
            views(as_params@) == start_params + param_uses(all, i as nat, target@),
            views(as_return@) == start_return + return_uses(all, i as nat, target@),
        decreases functions.len() - i,
    {
        let function = &functions[i];
        if params_mention(&function.params, target) {
            let ghost before = as_params@;
            as_params.push(
                NameAndSignature { name: function.name.clone(), signature: function.into_type() },
            );
            assert(views(as_params@) =~= views(before).push(function_use(all[i as int])));
        }
        if types_mention(&function.return_types, target) {
            let ghost before = as_return@;
            as_return.push(
                NameAndSignature { name: function.name.clone(), signature: function.into_type() },
            );
            assert(views(as_return@) =~= views(before).push(function_use(all[i as int])));
        }
        i += 1;
    }
}

/// Whether `record` is the type named `target` itself.
fn record_owns(record: &RecordGenerator, target: &str) -> (r: bool)
    ensures
        r == owns(record@, target@),
{
    match &record.ty {
        Type::Single(single) => {
            assert(record.ty@ == TypeView::Single(single@));
            same_str(single.name.as_str(), target)
        },
        _ => {
            false
        },
    }
}

/// How `record` uses the type named `target`, if it does.
pub fn find_record_user(record: &RecordGenerator, target: &str) -> (user: Option<User>)
    ensures
        match user {
            Some(user) => record_user(record@, target@) == Some(user@),
            None => record_user(record@, target@) is None,
        },
{
    let mut as_params: Vec<NameAndSignature> = Vec::new();
    let mut as_return: Vec<NameAndSignature> = Vec::new();
    let mut as_fields: Vec<NameAndSignature> = Vec::new();
    scan_functions(&record.functions, target, &mut as_params, &mut as_return);
    scan_functions(&record.mut_functions, target, &mut as_params, &mut as_return);
    scan_functions(&record.methods, target, &mut as_params, &mut as_return);
    scan_functions(&record.mut_methods, target, &mut as_params, &mut as_return);
    scan_functions(&record.meta_function, target, &mut as_params, &mut as_return);
    scan_functions(&record.meta_function_mut, target, &mut as_params, &mut as_return);
    scan_functions(&record.meta_method, target, &mut as_params, &mut as_return);
    scan_functions(&record.meta_method_mut, target, &mut as_params, &mut as_return);
    scan_fields(&record.fields, target, &mut as_fields);
    scan_fields(&record.static_fields, target, &mut as_fields);
    if as_params.is_empty() && as_return.is_empty() && as_fields.is_empty() {
        return None;
    }
    Some(User { name: record.name.clone(), as_params, as_return, as_fields })
}

/// The global instances as one user of the type named `target`.
fn find_globals_user(globals: &Vec<GlobalInstance>, target: &str, users: &mut Vec<User>)
    ensures
        views(final(users)@) == views(old(users)@) + globals_user(views(globals@), target@),
{
    let ghost all = views(globals@);
    let mut as_fields: Vec<NameAndSignature> = Vec::new();
    assert(views(as_fields@) =~= Seq::empty());
    let mut i: usize = 0;
    while i < globals.len()
        invariant
            i <= globals.len(),
            all == views(globals@),
            views(as_fields@) == global_uses(all, i as nat, target@),
        decreases globals.len() - i,
    {
        let global = &globals[i];
        if type_mentions(&global.ty, target) {
            as_fields.push(
                NameAndSignature { name: global.name.clone(), signature: global.ty.clone() },
            );
        }
        i += 1;
    }
    if as_fields.is_empty() {
        return ;
    }
    let user = User {
        name: "global".to_owned(),
        as_params: Vec::new(),
        as_return: Vec::new(),
        as_fields,
    };
    users.push(user);
}

/// Every type and global of `type_walker` that uses `teal_type`, and how.
///
/// The records come in the order of the graph, the record that is
/// `teal_type` itself left out, and the global instances last, as one user.
/// Only the name of `teal_type` counts: two instantiations of one generic
/// type are one target.
pub fn find_users(teal_type: &TypeGenerator, type_walker: &TypeWalker) -> (users: Vec<User>)
    ensures
        views(users@) == users_of(teal_type@, type_walker@),
{
    let mut users: Vec<User> = Vec::new();
    let target = match teal_type.ty() {
        Type::Single(single) => {
            assert(teal_type@.single() == Some(single@));
            single.name.as_str()
        },
        _ => {
            return users;
        },
    };
    let ghost types = views(type_walker.given_types@);
    let mut i: usize = 0;
    while i < type_walker.given_types.len()
        invariant
            i <= type_walker.given_types.len(),
            types == views(type_walker.given_types@),
            views(users@) == users_among(types, i as nat, target@),
        decreases type_walker.given_types.len() - i,
    {
        match &type_walker.given_types[i] {
            TypeGenerator::Record(record) => {
                if !record_owns(record, target) {
                    if let Some(user) = find_record_user(record, target) {
                        users.push(user);
                    }
                }
            },
            TypeGenerator::Enum(_) => {},
        }
        i += 1;
    }
    find_globals_user(&type_walker.global_instances_off, target, &mut users);
    users
}

} // verus!
