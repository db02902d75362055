//! Export completeness: the types that the library uses somewhere and never
//! exports.

use crate::render_type::{answers, is_type_compatible_helper};
use crate::text::{concat_str, decimal_string, decimal_text, same_str, str_less, text_less};
use crate::text::{lemma_text_less_irreflexive, lemma_text_less_total, lemma_text_less_transitive};
use crate::type_generator::{
    ExportedFunction, ExportedFunctionView, Field, FieldView, RecordGenerator, RecordView,
    TypeGenerator, TypeGeneratorView,
};
use crate::type_model::{
    collect_leaves, collect_leaves_of, collect_param_leaves, leaves, leaves_of, param_leaves,
    same_single, views, KindOfType, SingleType, SingleTypeView, Type,
};
use crate::type_walker::{GlobalInstance, GlobalInstanceView, TypeWalker, TypeWalkerView};
use vstd::prelude::*;

verus! {

/// One place where a single type is used: the type, and what uses it.
#[derive(Clone, Debug, PartialEq, Eq)]
pub struct TypeUse {
    pub ty: SingleType,
    /// The member that uses the type, as `Record.member`; for a global
    /// instance, `global.` and the name of the instance.
    pub used_by: String,
}

/// What a [`TypeUse`] stands for.
pub struct TypeUseView {
    pub ty: SingleTypeView,
    pub used_by: Seq<char>,
}

impl View for TypeUse {
    type V = TypeUseView;

    open spec fn view(&self) -> TypeUseView {
        TypeUseView { ty: self.ty@, used_by: self.used_by@ }
    }
}

/// The label of the member `member` of `owner`.
pub open spec fn member_label(owner: Seq<char>, member: Seq<char>) -> Seq<char> {
    owner + "."@ + member
}

/// The label of the global instance called `name`.
pub open spec fn global_label(name: Seq<char>) -> Seq<char> {
    "global."@ + name
}

/// The first `n` of `singles`, each used by `used_by`.
pub open spec fn tagged(singles: Seq<SingleTypeView>, n: nat, used_by: Seq<char>) -> Seq<
    TypeUseView,
>
    decreases n,
{
    if 0 < n <= singles.len() {
        tagged(singles, (n - 1) as nat, used_by).push(
            TypeUseView { ty: singles[n - 1], used_by },
        )
    } else {
        Seq::empty()
    }
}

/// What one field of the record called `owner` uses.
pub open spec fn uses_of_field(field: FieldView, owner: Seq<char>) -> Seq<TypeUseView> {
    tagged(leaves(field.ty), leaves(field.ty).len(), member_label(owner, field.name))
}

/// What the first `n` of `fields` use.
pub open spec fn uses_of_fields(fields: Seq<FieldView>, n: nat, owner: Seq<char>) -> Seq<
    TypeUseView,
>
    decreases n,
{
    if 0 < n <= fields.len() {
        uses_of_fields(fields, (n - 1) as nat, owner) + uses_of_field(fields[n - 1], owner)
    } else {
        Seq::empty()
    }
}

/// The leaves of the parameters of `function`, then those of what it returns.
pub open spec fn function_leaves(function: ExportedFunctionView) -> Seq<SingleTypeView> {
    param_leaves(function.params, function.params.len()) + leaves_of(
        function.return_types,
        function.return_types.len(),
    )
}

/// What one function of the record called `owner` uses.
pub open spec fn uses_of_function(function: ExportedFunctionView, owner: Seq<char>) -> Seq<
    TypeUseView,
> {
    tagged(
        function_leaves(function),
        function_leaves(function).len(),
        member_label(owner, function.name),
    )
}

/// What the first `n` of `functions` use.
pub open spec fn uses_of_functions(
    functions: Seq<ExportedFunctionView>,
    n: nat,
    owner: Seq<char>,
) -> Seq<TypeUseView>
    decreases n,
{
    if 0 < n <= functions.len() {
        uses_of_functions(functions, (n - 1) as nat, owner) + uses_of_function(
            functions[n - 1],
            owner,
        )
    } else {
        Seq::empty()
    }
}

/// What the functions and methods of `record` use, collection by
/// collection.
pub open spec fn uses_of_all_functions(record: RecordView) -> Seq<TypeUseView> {
    uses_of_functions(record.functions, record.functions.len(), record.name) + uses_of_functions(
        record.methods,
        record.methods.len(),
        record.name,
    ) + uses_of_functions(record.mut_functions, record.mut_functions.len(), record.name)
        + uses_of_functions(record.mut_methods, record.mut_methods.len(), record.name)
        + uses_of_functions(record.meta_function, record.meta_function.len(), record.name)
        + uses_of_functions(record.meta_method, record.meta_method.len(), record.name)
        + uses_of_functions(
        record.meta_function_mut,
        record.meta_function_mut.len(),
        record.name,
    ) + uses_of_functions(record.meta_method_mut, record.meta_method_mut.len(), record.name)
}

/// What `record` uses: its fields, its functions and methods, and its
/// static fields.
pub open spec fn uses_of_record(record: RecordView) -> Seq<TypeUseView> {
    uses_of_fields(record.fields, record.fields.len(), record.name) + uses_of_all_functions(
        record,
    ) + uses_of_fields(record.static_fields, record.static_fields.len(), record.name)
}

/// What one exported type uses. An enum uses nothing.
pub open spec fn uses_of_type(ty: TypeGeneratorView) -> Seq<TypeUseView> {
    match ty {
        TypeGeneratorView::Record(record) => uses_of_record(record),
        TypeGeneratorView::Enum(_) => Seq::empty(),
    }
}

/// What the first `n` of `types` use.
pub open spec fn uses_of_types(types: Seq<TypeGeneratorView>, n: nat) -> Seq<TypeUseView>
    decreases n,
{
    if 0 < n <= types.len() {
        uses_of_types(types, (n - 1) as nat) + uses_of_type(types[n - 1])
    } else {
        Seq::empty()
    }
}

/// What one global instance uses.
pub open spec fn uses_of_global(global: GlobalInstanceView) -> Seq<TypeUseView> {
    tagged(leaves(global.ty), leaves(global.ty).len(), global_label(global.name))
}

/// What the first `n` of `globals` use.
pub open spec fn uses_of_globals(globals: Seq<GlobalInstanceView>, n: nat) -> Seq<TypeUseView>
    decreases n,
{
    if 0 < n <= globals.len() {
        uses_of_globals(globals, (n - 1) as nat) + uses_of_global(globals[n - 1])
    } else {
        Seq::empty()
    }
}

/// Every use of a single type in `graph`: every leaf of the type of every
/// field, parameter, result and global instance, with what uses it.
pub open spec fn all_uses(graph: TypeWalkerView) -> Seq<TypeUseView> {
    uses_of_types(graph.given_types, graph.given_types.len()) + uses_of_globals(
        graph.global_instances_off,
        graph.global_instances_off.len(),
    )
}

/// Whether one of `types` is an exported type that `ty` can refer to.
pub open spec fn exported(types: Seq<TypeGeneratorView>, ty: SingleTypeView) -> bool {
    exists|i: int| 0 <= i < types.len() && answers(#[trigger] types[i], ty)
}

/// Whether `used` is a use of a type that should have been exported and is
/// not.
pub open spec fn is_missing(used: TypeUseView, types: Seq<TypeGeneratorView>) -> bool {
    used.ty.kind == KindOfType::External && !exported(types, used.ty)
}

/// The missing ones among the first `n` of `uses`, each once, where it
/// stands first.
pub open spec fn missing_among(
    uses: Seq<TypeUseView>,
    n: nat,
    types: Seq<TypeGeneratorView>,
) -> Seq<TypeUseView>
    decreases n,
{
    if 0 < n <= uses.len() {
        let before = missing_among(uses, (n - 1) as nat, types);
        if is_missing(uses[n - 1], types) && !before.contains(uses[n - 1]) {
            before.push(uses[n - 1])
        } else {
            before
        }
    } else {
        Seq::empty()
    }
}

/// The uses in `graph` of types that are not exported.
pub open spec fn missing_exports(graph: TypeWalkerView) -> Seq<TypeUseView> {
    missing_among(all_uses(graph), all_uses(graph).len(), graph.given_types)
}

proof fn lemma_contained_in_concat<A>(a: Seq<A>, b: Seq<A>, x: A)
    ensures
        a.contains(x) ==> (a + b).contains(x),
        b.contains(x) ==> (a + b).contains(x),
{
    if a.contains(x) {
        let i = choose|i: int| 0 <= i < a.len() && a[i] == x;
        assert((a + b)[i] == x);
    }
    if b.contains(x) {
        let i = choose|i: int| 0 <= i < b.len() && b[i] == x;
        assert((a + b)[a.len() + i] == x);
    }
}

proof fn lemma_tagged_holds(singles: Seq<SingleTypeView>, n: nat, used_by: Seq<char>, at: int)
    requires
        0 <= at < n <= singles.len(),
    ensures
        tagged(singles, n, used_by).contains(TypeUseView { ty: singles[at], used_by }),
    decreases n,
{
    let used = TypeUseView { ty: singles[at], used_by };
    let before = tagged(singles, (n - 1) as nat, used_by);
    if at == n - 1 {
        assert(before.push(used)[before.len() as int] == used);
    } else {
        lemma_tagged_holds(singles, (n - 1) as nat, used_by, at);
        let i = choose|i: int| 0 <= i < before.len() && before[i] == used;
        assert(tagged(singles, n, used_by)[i] == used);
    }
}

proof fn lemma_fields_hold(
    fields: Seq<FieldView>,
    n: nat,
    owner: Seq<char>,
    at: int,
    used: TypeUseView,
)
    requires
        0 <= at < n <= fields.len(),
        uses_of_field(fields[at], owner).contains(used),
    ensures
        uses_of_fields(fields, n, owner).contains(used),
    decreases n,
{
    if at < n - 1 {
        lemma_fields_hold(fields, (n - 1) as nat, owner, at, used);
    }
    lemma_contained_in_concat(
        uses_of_fields(fields, (n - 1) as nat, owner),
        uses_of_field(fields[n - 1], owner),
        used,
    );
}

proof fn lemma_types_hold(types: Seq<TypeGeneratorView>, n: nat, at: int, used: TypeUseView)
    requires
        0 <= at < n <= types.len(),
        uses_of_type(types[at]).contains(used),
    ensures
        uses_of_types(types, n).contains(used),
    decreases n,
{
    if at < n - 1 {
        lemma_types_hold(types, (n - 1) as nat, at, used);
    }
    lemma_contained_in_concat(
        uses_of_types(types, (n - 1) as nat),
        uses_of_type(types[n - 1]),
        used,
    );
}

proof fn lemma_record_holds_field_uses(record: RecordView, used: TypeUseView)
    requires
        uses_of_fields(record.fields, record.fields.len(), record.name).contains(used),
    ensures
        uses_of_record(record).contains(used),
{
    let of_fields = uses_of_fields(record.fields, record.fields.len(), record.name);
    lemma_contained_in_concat(of_fields, uses_of_all_functions(record), used);
    lemma_contained_in_concat(
        of_fields + uses_of_all_functions(record),
        uses_of_fields(record.static_fields, record.static_fields.len(), record.name),
        used,
    );
}

proof fn lemma_record_holds_static_field_uses(record: RecordView, used: TypeUseView)
    requires
        uses_of_fields(record.static_fields, record.static_fields.len(), record.name).contains(
            used,
        ),
    ensures
        uses_of_record(record).contains(used),
{
    lemma_contained_in_concat(
        uses_of_fields(record.fields, record.fields.len(), record.name) + uses_of_all_functions(
            record,
        ),
        uses_of_fields(record.static_fields, record.static_fields.len(), record.name),
        used,
    );
}

proof fn lemma_reported_once(graph: TypeWalkerView, at: int, record: RecordView, used: TypeUseView)
    requires
        0 <= at < graph.given_types.len(),
        graph.given_types[at] == TypeGeneratorView::Record(record),
        uses_of_record(record).contains(used),
        is_missing(used, graph.given_types),
    ensures
        exists|i: int|
            {
                &&& 0 <= i < missing_exports(graph).len()
                &&& #[trigger] missing_exports(graph)[i] == used
                &&& forall|j: int|
                    0 <= j < missing_exports(graph).len() && missing_exports(graph)[j]
                        == missing_exports(graph)[i] ==> j == i
            },
{
    lemma_types_hold(graph.given_types, graph.given_types.len(), at, used);
    lemma_contained_in_concat(
        uses_of_types(graph.given_types, graph.given_types.len()),
        uses_of_globals(graph.global_instances_off, graph.global_instances_off.len()),
        used,
    );
    let uses = all_uses(graph);
    let k = choose|k: int| 0 <= k < uses.len() && uses[k] == used;
    lemma_missing_among(uses, uses.len(), graph.given_types);
    let missing = missing_exports(graph);
    assert(is_missing(uses[k], graph.given_types));
    let i = choose|i: int| 0 <= i < missing.len() && missing[i] == used;
    assert(missing[i] == used);
}

/// What [`missing_among`] gives: nothing twice, nothing but what is missing,
/// and everything that is missing among the uses it was given.
proof fn lemma_missing_among(uses: Seq<TypeUseView>, n: nat, types: Seq<TypeGeneratorView>)
    requires
        n <= uses.len(),
    ensures
        missing_among(uses, n, types).no_duplicates(),
        forall|i: int|
            0 <= i < missing_among(uses, n, types).len() ==> is_missing(
                #[trigger] missing_among(uses, n, types)[i],
                types,
            ) && uses.contains(missing_among(uses, n, types)[i]),
        forall|k: int|
            0 <= k < n && is_missing(#[trigger] uses[k], types) ==> missing_among(
                uses,
                n,
                types,
            ).contains(uses[k]),
    decreases n,
{
    if n > 0 {
        lemma_missing_among(uses, (n - 1) as nat, types);
        let before = missing_among(uses, (n - 1) as nat, types);
        let now = missing_among(uses, n, types);
        let last = uses[n - 1];
        assert forall|k: int|
            0 <= k < n && is_missing(#[trigger] uses[k], types) implies now.contains(uses[k]) by {
            if k < n - 1 {
                let i = choose|i: int| 0 <= i < before.len() && before[i] == uses[k];
                assert(now[i] == uses[k]);
            } else if before.contains(last) {
            } else {
                assert(now[before.len() as int] == last);
            }
        }
    }
}

/// A type that is used and never exported is reported once for each member
/// that uses it: where a leaf of the type of the field `record.fields[field]`
/// of the record at `graph.given_types[at]` is an external type that no
/// exported type answers to, the missing exports hold that type with the
/// label `Record.field` at one place, and at no other.
pub proof fn lemma_unexported_field_type_is_reported_once(
    graph: TypeWalkerView,
    at: int,
    record: RecordView,
    field: int,
    leaf: int,
)
    requires
        0 <= at < graph.given_types.len(),
        graph.given_types[at] == TypeGeneratorView::Record(record),
        0 <= field < record.fields.len(),
        0 <= leaf < leaves(record.fields[field].ty).len(),
        leaves(record.fields[field].ty)[leaf].kind == KindOfType::External,
        !exported(graph.given_types, leaves(record.fields[field].ty)[leaf]),
    ensures
        exists|i: int|
            {
                &&& 0 <= i < missing_exports(graph).len()
                &&& #[trigger] missing_exports(graph)[i] == (TypeUseView {
                    ty: leaves(record.fields[field].ty)[leaf],
                    used_by: member_label(record.name, record.fields[field].name),
                })
                &&& forall|j: int|
                    0 <= j < missing_exports(graph).len() && missing_exports(graph)[j]
                        == missing_exports(graph)[i] ==> j == i
            },
{
    let singles = leaves(record.fields[field].ty);
    let used = TypeUseView {
        ty: singles[leaf],
        used_by: member_label(record.name, record.fields[field].name),
    };
    lemma_tagged_holds(singles, singles.len(), used.used_by, leaf);
    lemma_fields_hold(record.fields, record.fields.len(), record.name, field, used);
    lemma_record_holds_field_uses(record, used);
    lemma_reported_once(graph, at, record, used);
}

/// The same holds of a static field: an external type in the type of a
/// static field that no exported type answers to is reported once, with the
/// label `Record.field`.
pub proof fn lemma_unexported_static_field_type_is_reported_once(
    graph: TypeWalkerView,
    at: int,
    record: RecordView,
    field: int,
    leaf: int,
)
    requires
        0 <= at < graph.given_types.len(),
        graph.given_types[at] == TypeGeneratorView::Record(record),
        0 <= field < record.static_fields.len(),
        0 <= leaf < leaves(record.static_fields[field].ty).len(),
        leaves(record.static_fields[field].ty)[leaf].kind == KindOfType::External,
        !exported(graph.given_types, leaves(record.static_fields[field].ty)[leaf]),
    ensures
        exists|i: int|
            {
                &&& 0 <= i < missing_exports(graph).len()
                &&& #[trigger] missing_exports(graph)[i] == (TypeUseView {
                    ty: leaves(record.static_fields[field].ty)[leaf],
                    used_by: member_label(record.name, record.static_fields[field].name),
                })
                &&& forall|j: int|
                    0 <= j < missing_exports(graph).len() && missing_exports(graph)[j]
                        == missing_exports(graph)[i] ==> j == i
            },
{
    let singles = leaves(record.static_fields[field].ty);
    let used = TypeUseView {
        ty: singles[leaf],
        used_by: member_label(record.name, record.static_fields[field].name),
    };
    lemma_tagged_holds(singles, singles.len(), used.used_by, leaf);
    lemma_fields_hold(record.static_fields, record.static_fields.len(), record.name, field, used);
    lemma_record_holds_static_field_uses(record, used);
    lemma_reported_once(graph, at, record, used);
}

/// Where every type that is used is exported, nothing is reported: if every
/// external leaf of every field, parameter, result and global instance is
/// answered to by an exported type, the list of missing exports is empty.
pub proof fn lemma_complete_exports_report_nothing(graph: TypeWalkerView)
    requires
        forall|k: int|
            0 <= k < all_uses(graph).len() && (#[trigger] all_uses(graph)[k]).ty.kind
                == KindOfType::External ==> exported(graph.given_types, all_uses(graph)[k].ty),
    ensures
        missing_exports(graph) == Seq::<TypeUseView>::empty(),
{
    let uses = all_uses(graph);
    lemma_missing_among(uses, uses.len(), graph.given_types);
    let missing = missing_exports(graph);
    if missing.len() > 0 {
        assert(is_missing(missing[0], graph.given_types));
        let k = choose|k: int| 0 <= k < uses.len() && uses[k] == missing[0];
    }
    assert(missing =~= Seq::<TypeUseView>::empty());
}

fn tag_leaves(singles: Vec<SingleType>, used_by: &str, uses: &mut Vec<TypeUse>)
    ensures
        views(final(uses)@) == views(old(uses)@) + tagged(
            views(singles@),
            singles.len() as nat,
            used_by@,
        ),
{
    let ghost start = views(uses@);
    let ghost all = views(singles@);
    let mut i: usize = 0;
    while i < singles.len()
        invariant
            i <= singles.len(),
            all == views(singles@),
            views(uses@) == start + tagged(all, i as nat, used_by@),
        decreases singles.len() - i,
    {
        let ghost before = views(uses@);
        let used = TypeUse { ty: singles[i].clone(), used_by: used_by.to_owned() };
        uses.push(used);
        assert(views(uses@) =~= before.push(used@));
        assert(views(uses@) =~= start + tagged(all, (i + 1) as nat, used_by@));
        i += 1;
    }
}

fn member_name(owner: &str, member: &str) -> (label: String)
    ensures
        label@ == member_label(owner@, member@),
{
    let mut label = concat_str(owner, ".");
    label.append(member);
    label
}

fn collect_field_uses(fields: &Vec<Field>, owner: &str, uses: &mut Vec<TypeUse>)
    ensures
        views(final(uses)@) == views(old(uses)@) + uses_of_fields(
            views(fields@),
            fields.len() as nat,
            owner@,
        ),
{
    let ghost start = views(uses@);
    let ghost all = views(fields@);
    let mut i: usize = 0;
    while i < fields.len()
        invariant
            i <= fields.len(),
            all == views(fields@),
            views(uses@) == start + uses_of_fields(all, i as nat, owner@),
        decreases fields.len() - i,
    {
        let field = &fields[i];
        let mut singles: Vec<SingleType> = Vec::new();
        assert(views(singles@) =~= Seq::empty());
        collect_leaves(&field.ty, &mut singles);
        assert(views(singles@) =~= leaves(all[i as int].ty));
        let label = member_name(owner, field.name.as_str());
        tag_leaves(singles, label.as_str(), uses);
        assert(views(uses@) =~= start + uses_of_fields(all, (i + 1) as nat, owner@));
        i += 1;
    }
}

fn collect_function_uses(functions: &Vec<ExportedFunction>, owner: &str, uses: &mut Vec<TypeUse>)
    ensures
        views(final(uses)@) == views(old(uses)@) + uses_of_functions(
            views(functions@),
            functions.len() as nat,
            owner@,
        ),
{
    let ghost start = views(uses@);
    let ghost all = views(functions@);
    let mut i: usize = 0;
    while i < functions.len()
        invariant
            i <= functions.len(),
            all == views(functions@),
            views(uses@) == start + uses_of_functions(all, i as nat, owner@),
        decreases functions.len() - i,
    {
        let function = &functions[i];
        let mut singles: Vec<SingleType> = Vec::new();
        collect_param_leaves(&function.params, &mut singles);
        collect_leaves_of(&function.return_types, &mut singles);
        let label = member_name(owner, function.name.as_str());
        tag_leaves(singles, label.as_str(), uses);
        i += 1;
    }
}

fn collect_all_function_uses(record: &RecordGenerator, uses: &mut Vec<TypeUse>)
    ensures
        views(final(uses)@) == views(old(uses)@) + uses_of_all_functions(record@),
{
    let ghost start = views(uses@);
    let ghost of = record@;
    let owner = record.name.as_str();
    collect_function_uses(&record.functions, owner, uses);
    let ghost part = uses_of_functions(of.functions, of.functions.len(), of.name);
    assert(views(uses@) =~= start + part);
    collect_function_uses(&record.methods, owner, uses);
    let ghost part = part + uses_of_functions(of.methods, of.methods.len(), of.name);
    assert(views(uses@) =~= start + part);
    collect_function_uses(&record.mut_functions, owner, uses);
    let ghost part = part + uses_of_functions(of.mut_functions, of.mut_functions.len(), of.name);
    assert(views(uses@) =~= start + part);
    collect_function_uses(&record.mut_methods, owner, uses);
    let ghost part = part + uses_of_functions(of.mut_methods, of.mut_methods.len(), of.name);
    assert(views(uses@) =~= start + part);
    collect_function_uses(&record.meta_function, owner, uses);
    let ghost part = part + uses_of_functions(of.meta_function, of.meta_function.len(), of.name);
    assert(views(uses@) =~= start + part);
    collect_function_uses(&record.meta_method, owner, uses);
    let ghost part = part + uses_of_functions(of.meta_method, of.meta_method.len(), of.name);
    assert(views(uses@) =~= start + part);
    collect_function_uses(&record.meta_function_mut, owner, uses);
    let ghost part = part + uses_of_functions(
        of.meta_function_mut,
        of.meta_function_mut.len(),
        of.name,
    );
    assert(views(uses@) =~= start + part);
    collect_function_uses(&record.meta_method_mut, owner, uses);
    let ghost part = part + uses_of_functions(
        of.meta_method_mut,
        of.meta_method_mut.len(),
        of.name,
    );
    assert(views(uses@) =~= start + part);
}

fn collect_record_uses(record: &RecordGenerator, uses: &mut Vec<TypeUse>)
    ensures
        views(final(uses)@) == views(old(uses)@) + uses_of_record(record@),
{
    let ghost start = views(uses@);
    let owner = record.name.as_str();
    collect_field_uses(&record.fields, owner, uses);
    collect_all_function_uses(record, uses);
    collect_field_uses(&record.static_fields, owner, uses);
    assert(views(uses@) =~= start + uses_of_record(record@));
}

fn collect_global_uses(globals: &Vec<GlobalInstance>, uses: &mut Vec<TypeUse>)
    ensures
        views(final(uses)@) == views(old(uses)@) + uses_of_globals(
            views(globals@),
            globals.len() as nat,
        ),
{
    let ghost start = views(uses@);
    let ghost all = views(globals@);
    let mut i: usize = 0;
    assert(views(uses@) =~= start + uses_of_globals(all, 0));
    while i < globals.len()
        invariant
            i <= globals.len(),
            all == views(globals@),
            views(uses@) == start + uses_of_globals(all, i as nat),
        decreases globals.len() - i,
    {
        let global = &globals[i];
        let mut singles: Vec<SingleType> = Vec::new();
        collect_leaves(&global.ty, &mut singles);
        assert(views(singles@) =~= leaves(all[i as int].ty));
        let label = concat_str("global.", global.name.as_str());
        tag_leaves(singles, label.as_str(), uses);
        i += 1;
    }
}

/// Every use of a single type in `walker`, as [`all_uses`] lists them.
pub fn find_all_uses(walker: &TypeWalker) -> (uses: Vec<TypeUse>)
    ensures
        views(uses@) == all_uses(walker@),
{
    let mut uses: Vec<TypeUse> = Vec::new();
    let ghost types = views(walker.given_types@);
    let mut i: usize = 0;
    while i < walker.given_types.len()
        invariant
            i <= walker.given_types.len(),
            types == views(walker.given_types@),
            views(uses@) == uses_of_types(types, i as nat),
        decreases walker.given_types.len() - i,
    {
        match &walker.given_types[i] {
            TypeGenerator::Record(record) => {
                collect_record_uses(record, &mut uses);
            },
            TypeGenerator::Enum(_) => {},
        }
        i += 1;
    }
    collect_global_uses(&walker.global_instances_off, &mut uses);
    uses
}

/// Whether one of `types` is an exported type that `ty` can refer to.
fn is_exported(types: &Vec<TypeGenerator>, ty: &SingleType) -> (r: bool)
    ensures
        r == exported(views(types@), ty@),
{
    let ghost all = views(types@);
    let mut i: usize = 0;
    while i < types.len()
        invariant
            i <= types.len(),
            all == views(types@),
            forall|j: int| 0 <= j < i ==> !answers(#[trigger] all[j], ty@),
        decreases types.len() - i,
    {
        match types[i].ty() {
            Type::Single(own) => {
                assert(all[i as int].single() == Some(own@));
                if is_type_compatible_helper(own, ty) {
                    return true;
                }
            },
            _ => {},
        }
        i += 1;
    }
    false
}

fn holds_use(uses: &Vec<TypeUse>, used: &TypeUse) -> (r: bool)
    ensures
        r == views(uses@).contains(used@),
{
    let ghost all = views(uses@);
    let mut i: usize = 0;
    while i < uses.len()
        invariant
            i <= uses.len(),
            all == views(uses@),
            forall|j: int| 0 <= j < i ==> all[j] != used@,
        decreases uses.len() - i,
    {
        if same_single(&uses[i].ty, &used.ty) && same_str(
            uses[i].used_by.as_str(),
            used.used_by.as_str(),
        ) {
            assert(all[i as int] == used@);
            return true;
        }
        i += 1;
    }
    false
}

/// The uses in `walker` of types that are not exported: every use of an
/// external type that no exported type answers to, each once, in the order
/// of the graph.
pub fn find_types_missing_export(walker: &TypeWalker) -> (missing: Vec<TypeUse>)
    ensures
        views(missing@) == missing_exports(walker@),
{
    let uses = find_all_uses(walker);
    let ghost all = views(uses@);
    let ghost types = views(walker.given_types@);
    let mut missing: Vec<TypeUse> = Vec::new();
    for used in it: uses
        invariant
            it.seq() == uses@,
            all == views(uses@),
            types == views(walker.given_types@),
            views(missing@) == missing_among(all, it.index() as nat, types),
    {
        if used.ty.kind.is_external() && !is_exported(&walker.given_types, &used.ty) {
            if !holds_use(&missing, &used) {
                missing.push(used);
            }
        }
    }
    missing
}

/// A type that is not exported, and the members that use it.
#[derive(Clone, Debug, PartialEq, Eq)]
pub struct MissingExport {
    /// The name of the type.
    pub name: String,
    /// What uses the type, in the order of the graph. It is never empty.
    pub used_by: Vec<String>,
}

/// What a [`MissingExport`] stands for.
pub struct MissingExportView {
    pub name: Seq<char>,
    pub used_by: Seq<Seq<char>>,
}

impl View for MissingExport {
    type V = MissingExportView;

    open spec fn view(&self) -> MissingExportView {
        MissingExportView { name: self.name@, used_by: views(self.used_by@) }
    }
}

impl MissingExportView {
    /// The line that tells of the missing type: it names the only user, or
    /// the first user and how many others there are. An entry without users,
    /// which no report holds, says so.
    pub open spec fn message(self) -> Seq<char> {
        if self.used_by.len() == 0 {
            "Missing type from export: "@ + self.name
                + ". But no matching use found? This sounds like a bug."@
        } else if self.used_by.len() == 1 {
            "Missing type from export: "@ + self.name + ". Used by: "@ + self.used_by[0]
        } else {
            "Missing type from export: "@ + self.name + ". Used by: "@ + self.used_by[0] + " and "@
                + decimal_text((self.used_by.len() - 1) as nat) + " others"@
        }
    }
}

impl MissingExport {
    /// The line that tells of the missing type.
    pub fn message(&self) -> (line: String)
        ensures
            line@ == self@.message(),
    {
        let mut line = concat_str("Missing type from export: ", self.name.as_str());
        if self.used_by.len() == 0 {
            line.append(". But no matching use found? This sounds like a bug.");
            return line;
        }
        line.append(". Used by: ");
        line.append(self.used_by[0].as_str());
        if self.used_by.len() > 1 {
            line.append(" and ");
            line.append(decimal_string(self.used_by.len() - 1).as_str());
            line.append(" others");
        }
        line
    }
}

/// What uses the type called `name` among the first `n` of `missing`.
pub open spec fn labels_for(missing: Seq<TypeUseView>, n: nat, name: Seq<char>) -> Seq<Seq<char>>
    decreases n,
{
    if 0 < n <= missing.len() {
        let before = labels_for(missing, (n - 1) as nat, name);
        if missing[n - 1].ty.name == name {
            before.push(missing[n - 1].used_by)
        } else {
            before
        }
    } else {
        Seq::empty()
    }
}

/// Whether the names of `report` go up from each entry to the next.
pub open spec fn sorted_by_name(report: Seq<MissingExportView>) -> bool {
    forall|i: int, j: int|
        0 <= i < j < report.len() ==> text_less(
            (#[trigger] report[i]).name,
            (#[trigger] report[j]).name,
        )
}

/// Whether `report` tells of the first `n` of `missing`, grouped by the name
/// of the type: the names go up, every type among them has its entry, and
/// every entry lists all that use its type, in their order.
pub open spec fn reports(
    report: Seq<MissingExportView>,
    missing: Seq<TypeUseView>,
    n: nat,
) -> bool {
    &&& sorted_by_name(report)
    &&& forall|i: int|
        0 <= i < report.len() ==> (#[trigger] report[i]).used_by.len() > 0 && report[i].used_by
            == labels_for(missing, n, report[i].name)
    &&& forall|k: int|
        0 <= k < n ==> exists|i: int|
            0 <= i < report.len() && (#[trigger] report[i]).name == (#[trigger] missing[k]).ty.name
}

proof fn lemma_names_differ(report: Seq<MissingExportView>, i: int, j: int)
    requires
        sorted_by_name(report),
        0 <= i < report.len(),
        0 <= j < report.len(),
        i != j,
    ensures
        report[i].name != report[j].name,
{
    lemma_text_less_irreflexive(report[i].name);
    if i < j {
        assert(text_less(report[i].name, report[j].name));
    } else {
        assert(text_less(report[j].name, report[i].name));
    }
}

proof fn lemma_unnamed_has_no_labels(
    report: Seq<MissingExportView>,
    missing: Seq<TypeUseView>,
    n: nat,
    m: nat,
    name: Seq<char>,
)
    requires
        reports(report, missing, n),
        m <= n <= missing.len(),
        forall|i: int| 0 <= i < report.len() ==> (#[trigger] report[i]).name != name,
    ensures
        labels_for(missing, m, name) == Seq::<Seq<char>>::empty(),
    decreases m,
{
    if m > 0 {
        lemma_unnamed_has_no_labels(report, missing, n, (m - 1) as nat, name);
        let k = m - 1;
        let i = choose|i: int|
            0 <= i < report.len() && (#[trigger] report[i]).name == (#[trigger] missing[k]).ty.name;
        assert(report[i].name != name);
    }
}

proof fn lemma_group_extended(
    old_report: Seq<MissingExportView>,
    new_report: Seq<MissingExportView>,
    missing: Seq<TypeUseView>,
    n: nat,
    p: int,
)
    requires
        reports(old_report, missing, n),
        n < missing.len(),
        0 <= p < old_report.len(),
        old_report[p].name == missing[n as int].ty.name,
        new_report.len() == old_report.len(),
        forall|i: int| 0 <= i < old_report.len() && i != p ==> new_report[i] == old_report[i],
        new_report[p] == (MissingExportView {
            name: old_report[p].name,
            used_by: old_report[p].used_by.push(missing[n as int].used_by),
        }),
    ensures
        reports(new_report, missing, (n + 1) as nat),
{
    assert forall|i: int, j: int| 0 <= i < j < new_report.len() implies text_less(
        (#[trigger] new_report[i]).name,
        (#[trigger] new_report[j]).name,
    ) by {
        assert(new_report[i].name == old_report[i].name);
        assert(new_report[j].name == old_report[j].name);
    }
    assert forall|i: int| 0 <= i < new_report.len() implies (#[trigger] new_report[i]).used_by.len()
        > 0 && new_report[i].used_by == labels_for(missing, (n + 1) as nat, new_report[i].name) by {
        assert(old_report[i].used_by == labels_for(missing, n, old_report[i].name));
        if i != p {
            lemma_names_differ(old_report, i, p);
        }
    }
    assert forall|k: int| 0 <= k < n + 1 implies exists|i: int|
        0 <= i < new_report.len() && (#[trigger] new_report[i]).name == (
        #[trigger] missing[k]).ty.name by {
        if k < n {
            let i = choose|i: int|
                0 <= i < old_report.len() && (#[trigger] old_report[i]).name == (
                #[trigger] missing[k]).ty.name;
            assert(new_report[i].name == missing[k].ty.name);
        } else {
            assert(new_report[p].name == missing[k].ty.name);
        }
    }
}

proof fn lemma_group_inserted(
    old_report: Seq<MissingExportView>,
    new_report: Seq<MissingExportView>,
    missing: Seq<TypeUseView>,
    n: nat,
    p: int,
)
    requires
        reports(old_report, missing, n),
        n < missing.len(),
        0 <= p <= old_report.len(),
        forall|i: int|
            0 <= i < p ==> text_less((#[trigger] old_report[i]).name, missing[n as int].ty.name),
        p < old_report.len() ==> !text_less(old_report[p].name, missing[n as int].ty.name)
            && old_report[p].name != missing[n as int].ty.name,
        new_report.len() == old_report.len() + 1,
        forall|i: int| 0 <= i < p ==> new_report[i] == old_report[i],
        new_report[p] == (MissingExportView {
            name: missing[n as int].ty.name,
            used_by: seq![missing[n as int].used_by],
        }),
        forall|i: int| p < i < new_report.len() ==> new_report[i] == old_report[i - 1],
    ensures
        reports(new_report, missing, (n + 1) as nat),
{
    let name = missing[n as int].ty.name;
    assert forall|i: int| p <= i < old_report.len() implies text_less(
        name,
        (#[trigger] old_report[i]).name,
    ) by {
        lemma_text_less_total(old_report[p].name, name);
        if p < i {
            assert(text_less(old_report[p].name, old_report[i].name));
            lemma_text_less_transitive(name, old_report[p].name, old_report[i].name);
        }
    }
    lemma_text_less_irreflexive(name);
    assert forall|i: int| 0 <= i < old_report.len() implies (#[trigger] old_report[i]).name
        != name by {
        if i < p {
            assert(text_less(old_report[i].name, name));
        } else {
            assert(text_less(name, old_report[i].name));
        }
    }
    lemma_unnamed_has_no_labels(old_report, missing, n, n, name);
    assert forall|i: int, j: int| 0 <= i < j < new_report.len() implies text_less(
        (#[trigger] new_report[i]).name,
        (#[trigger] new_report[j]).name,
    ) by {
        if j < p {
            assert(text_less(old_report[i].name, old_report[j].name));
        } else if j == p {
            assert(text_less(old_report[i].name, name));
        } else if i < p {
            assert(text_less(old_report[i].name, old_report[j - 1].name));
        } else if i == p {
            assert(text_less(name, old_report[j - 1].name));
        } else {
            assert(text_less(old_report[i - 1].name, old_report[j - 1].name));
        }
    }
    assert forall|i: int| 0 <= i < new_report.len() implies (#[trigger] new_report[i]).used_by.len()
        > 0 && new_report[i].used_by == labels_for(missing, (n + 1) as nat, new_report[i].name) by {
        if i < p {
            assert(old_report[i].used_by == labels_for(missing, n, old_report[i].name));
            assert(old_report[i].name != name);
        } else if i == p {
            assert(Seq::<Seq<char>>::empty().push(missing[n as int].used_by) =~= seq![
                missing[n as int].used_by,
            ]);
        } else {
            assert(old_report[i - 1].used_by == labels_for(missing, n, old_report[i - 1].name));
            assert(old_report[i - 1].name != name);
        }
    }
    assert forall|k: int| 0 <= k < n + 1 implies exists|i: int|
        0 <= i < new_report.len() && (#[trigger] new_report[i]).name == (
        #[trigger] missing[k]).ty.name by {
        if k < n {
            let i = choose|i: int|
                0 <= i < old_report.len() && (#[trigger] old_report[i]).name == (
                #[trigger] missing[k]).ty.name;
            if i < p {
                assert(new_report[i].name == missing[k].ty.name);
            } else {
                assert(new_report[i + 1].name == missing[k].ty.name);
            }
        } else {
            assert(new_report[p].name == missing[k].ty.name);
        }
    }
}

/// Groups `missing` by the name of the type, the names in the order of the
/// dictionary: every type has one entry, which lists all that use it.
pub fn group_missing_exports(missing: &Vec<TypeUse>) -> (report: Vec<MissingExport>)
    ensures
        reports(views(report@), views(missing@), missing.len() as nat),
{
    let ghost all = views(missing@);
    let mut report: Vec<MissingExport> = Vec::new();
    let mut n: usize = 0;
    while n < missing.len()
        invariant
            n <= missing.len(),
            all == views(missing@),
            reports(views(report@), all, n as nat),
        decreases missing.len() - n,
    {
        let used = &missing[n];
        let ghost old_report = views(report@);
        let mut p: usize = 0;
        while p < report.len() && str_less(report[p].name.as_str(), used.ty.name.as_str())
            invariant
                p <= report.len(),
                old_report == views(report@),
                forall|i: int|
                    0 <= i < p ==> text_less((#[trigger] old_report[i]).name, used.ty.name@),
            decreases report.len() - p,
        {
            p += 1;
        }
        if p < report.len() && same_str(report[p].name.as_str(), used.ty.name.as_str()) {
            let mut group = report.remove(p);
            group.used_by.push(used.used_by.clone());
            assert(views(group.used_by@) =~= old_report[p as int].used_by.push(used.used_by@));
            report.insert(p, group);
            proof {
                let new_report = views(report@);
                assert forall|i: int| 0 <= i < old_report.len() && i != p implies new_report[i]
                    == old_report[i] by {}
                lemma_group_extended(old_report, new_report, all, n as nat, p as int);
            }
        } else {
            let mut used_by: Vec<String> = Vec::new();
            used_by.push(used.used_by.clone());
            let group = MissingExport { name: used.ty.name.clone(), used_by };
            assert(views(group.used_by@) =~= seq![used.used_by@]);
            report.insert(p, group);
            proof {
                let new_report = views(report@);
                assert forall|i: int| 0 <= i < p implies new_report[i] == old_report[i] by {}
                assert forall|i: int| p < i < new_report.len() implies new_report[i]
                    == old_report[i - 1] by {}
                lemma_group_inserted(old_report, new_report, all, n as nat, p as int);
            }
        }
        n += 1;
    }
    report
}

/// The report on the types that `type_defs` uses and does not export: one
/// entry for each such type, the names in the order of the dictionary, each
/// with all that use the type. The report never stops a run.
pub fn warn_about_missing_exports(type_defs: &TypeWalker) -> (report: Vec<MissingExport>)
    ensures
        reports(views(report@), missing_exports(type_defs@), missing_exports(type_defs@).len()),
{
    let missing = find_types_missing_export(type_defs);
    group_missing_exports(&missing)
}

} // verus!
