//! Type expressions: the closed set of shapes a type reference can have.

use vstd::prelude::*;

verus! {

/// The views of `items`, in their order.
pub open spec fn views<T: View>(items: Seq<T>) -> Seq<T::V> {
    items.map_values(|item: T| item@)
}

/// How a single type name is to be treated.
#[derive(Clone, Copy, Debug, PartialEq, Eq, Hash, Structural)]
pub enum KindOfType {
    /// A primitive of the target language. It is never linked.
    Builtin,
    /// A type that a library exports. It has to resolve to a link.
    External,
    /// A generic placeholder. It is written as it stands and never linked.
    Generic,
}

impl KindOfType {
    /// Whether this is the kind of a generic placeholder.
    pub fn is_generic(&self) -> (r: bool)
        ensures
            r == (*self == KindOfType::Generic),
    {
        matches!(self, KindOfType::Generic)
    }

    /// Whether this is the kind of a primitive of the target language.
    pub fn is_builtin(&self) -> (r: bool)
        ensures
            r == (*self == KindOfType::Builtin),
    {
        matches!(self, KindOfType::Builtin)
    }

    /// Whether this is the kind of a type that a library exports.
    pub fn is_external(&self) -> (r: bool)
        ensures
            r == (*self == KindOfType::External),
    {
        matches!(self, KindOfType::External)
    }
}

/// A type that is not composed of others: a name, its kind and its generic
/// arguments.
#[derive(Debug, PartialEq, Eq)]
pub struct SingleType {
    pub name: String,
    pub kind: KindOfType,
    pub generics: Vec<Type>,
}

/// One parameter of a function type.
#[derive(Debug, PartialEq, Eq)]
pub struct FunctionParam {
    pub param_name: Option<String>,
    pub ty: Type,
}

/// A function type: its parameters in order and what it gives back.
#[derive(Debug, PartialEq, Eq)]
pub struct FunctionRepresentation {
    pub params: Vec<FunctionParam>,
    pub return_types: Vec<Type>,
}

/// A table type from keys to values.
#[derive(Debug, PartialEq, Eq)]
pub struct MapRepresentation {
    pub key: Box<Type>,
    pub value: Box<Type>,
}

/// A type expression.
#[derive(Debug, PartialEq, Eq)]
pub enum Type {
    Function(FunctionRepresentation),
    Single(SingleType),
    MapOf(MapRepresentation),
    Or(Vec<Type>),
    Array(Box<Type>),
    Tuple(Vec<Type>),
    Variadic(Box<Type>),
}

/// What a [`SingleType`] stands for.
pub struct SingleTypeView {
    pub name: Seq<char>,
    pub kind: KindOfType,
    pub generics: Seq<TypeView>,
}

/// What a [`FunctionParam`] stands for.
pub struct FunctionParamView {
    pub param_name: Option<Seq<char>>,
    pub ty: TypeView,
}

/// What a [`Type`] stands for.
pub enum TypeView {
    Function { params: Seq<FunctionParamView>, return_types: Seq<TypeView> },
    Single(SingleTypeView),
    MapOf { key: Box<TypeView>, value: Box<TypeView> },
    Or(Seq<TypeView>),
    Array(Box<TypeView>),
    Tuple(Seq<TypeView>),
    Variadic(Box<TypeView>),
}

/// What `ty` stands for.
pub open spec fn type_view(ty: Type) -> TypeView
    decreases ty, 0nat,
{
    match ty {
        Type::Function(f) => TypeView::Function {
            params: params_view(f.params),
            return_types: types_view(f.return_types),
        },
        Type::Single(s) => TypeView::Single(single_view(s)),
        Type::MapOf(m) => TypeView::MapOf {
            key: Box::new(type_view(*m.key)),
            value: Box::new(type_view(*m.value)),
        },
        Type::Or(items) => TypeView::Or(types_view(items)),
        Type::Array(item) => TypeView::Array(Box::new(type_view(*item))),
        Type::Tuple(items) => TypeView::Tuple(types_view(items)),
        Type::Variadic(item) => TypeView::Variadic(Box::new(type_view(*item))),
    }
}

/// What `single` stands for.
pub open spec fn single_view(single: SingleType) -> SingleTypeView
    decreases single, 0nat,
{
    SingleTypeView { name: single.name@, kind: single.kind, generics: types_view(single.generics) }
}

/// What `param` stands for.
pub open spec fn param_view(param: FunctionParam) -> FunctionParamView
    decreases param, 0nat,
{
    FunctionParamView {
        param_name: match param.param_name {
            Some(name) => Some(name@),
            None => None,
        },
        ty: type_view(param.ty),
    }
}

/// The views of the types in `items`, in their order.
pub open spec fn types_view(items: Vec<Type>) -> Seq<TypeView>
    decreases items, 1nat,
{
    Seq::new(
        items.len() as nat,
        |i: int|
            if 0 <= i < items.len() {
                type_view(items[i])
            } else {
                arbitrary()
            },
    )
}

/// The views of the parameters in `items`, in their order.
pub open spec fn params_view(items: Vec<FunctionParam>) -> Seq<FunctionParamView>
    decreases items, 1nat,
{
    Seq::new(
        items.len() as nat,
        |i: int|
            if 0 <= i < items.len() {
                param_view(items[i])
            } else {
                arbitrary()
            },
    )
}

impl View for Type {
    type V = TypeView;

    open spec fn view(&self) -> TypeView {
        type_view(*self)
    }
}

impl View for SingleType {
    type V = SingleTypeView;

    open spec fn view(&self) -> SingleTypeView {
        single_view(*self)
    }
}

impl View for FunctionParam {
    type V = FunctionParamView;

    open spec fn view(&self) -> FunctionParamView {
        param_view(*self)
    }
}

/// The single types that `ty` is made of, from left to right: a single type
/// is its own and only leaf, whatever its generic arguments are.
pub open spec fn leaves(ty: TypeView) -> Seq<SingleTypeView>
    decreases ty, 0nat,
{
    match ty {
        TypeView::Function { params, return_types } => param_leaves(params, params.len())
            + leaves_of(return_types, return_types.len()),
        TypeView::Single(single) => seq![single],
        TypeView::MapOf { key, value } => leaves(*key) + leaves(*value),
        TypeView::Or(items) => leaves_of(items, items.len()),
        TypeView::Array(item) => leaves(*item),
        TypeView::Tuple(items) => leaves_of(items, items.len()),
        TypeView::Variadic(item) => leaves(*item),
    }
}

/// The leaves of the first `n` types of `items`.
pub open spec fn leaves_of(items: Seq<TypeView>, n: nat) -> Seq<SingleTypeView>
    decreases items, n,
{
    if 0 < n <= items.len() {
        leaves_of(items, (n - 1) as nat) + leaves(items[n - 1])
    } else {
        Seq::empty()
    }
}

/// The leaves of the types of the first `n` parameters of `params`.
pub open spec fn param_leaves(params: Seq<FunctionParamView>, n: nat) -> Seq<SingleTypeView>
    decreases params, n,
{
    if 0 < n <= params.len() {
        param_leaves(params, (n - 1) as nat) + leaves(params[n - 1].ty)
    } else {
        Seq::empty()
    }
}

/// Whether one of `singles` bears the name `name`.
pub open spec fn named_in(singles: Seq<SingleTypeView>, name: Seq<char>) -> bool {
    exists|i: int| 0 <= i < singles.len() && (#[trigger] singles[i]).name == name
}

/// Whether a leaf of `ty` bears the name `name`. Only the name counts: the
/// generic arguments of the leaf are not looked at.
pub open spec fn mentions(ty: TypeView, name: Seq<char>) -> bool {
    named_in(leaves(ty), name)
}

/// A name is found in two lists put together where it is found in one of them.
pub proof fn lemma_named_in_concat(
    a: Seq<SingleTypeView>,
    b: Seq<SingleTypeView>,
    name: Seq<char>,
)
    ensures
        named_in(a + b, name) == (named_in(a, name) || named_in(b, name)),
{
    if named_in(a, name) {
        let i = choose|i: int| 0 <= i < a.len() && (#[trigger] a[i]).name == name;
        assert((a + b)[i] == a[i]);
    }
    if named_in(b, name) {
        let j = choose|j: int| 0 <= j < b.len() && (#[trigger] b[j]).name == name;
        assert((a + b)[a.len() + j] == b[j]);
    }
    if named_in(a + b, name) {
        let k = choose|k: int| 0 <= k < (a + b).len() && (#[trigger] (a + b)[k]).name == name;
        if k < a.len() {
            assert(a[k] == (a + b)[k]);
        } else {
            assert(b[k - a.len()] == (a + b)[k]);
        }
    }
}

/// Whether `ty` mentions the type named `name`.
pub fn type_mentions(ty: &Type, name: &str) -> (r: bool)
    ensures
        r == mentions(ty@, name@),
    decreases ty,
{
    match ty {
        Type::Function(f) => {
            let in_params = params_mention(&f.params, name);
            let in_results = types_mention(&f.return_types, name);
            proof {
                lemma_named_in_concat(
                    param_leaves(params_view(f.params), f.params.len() as nat),
                    leaves_of(types_view(f.return_types), f.return_types.len() as nat),
                    name@,
                );
            }
            in_params || in_results
        },
        Type::Single(single) => {
            assert(leaves(ty@)[0] == single@);
            crate::text::same_str(single.name.as_str(), name)
        },
        Type::MapOf(m) => {
            let in_key = type_mentions(&m.key, name);
            let in_value = type_mentions(&m.value, name);
            proof {
                lemma_named_in_concat(leaves(m.key@), leaves(m.value@), name@);
            }
            in_key || in_value
        },
        Type::Or(items) => types_mention(items, name),
        Type::Array(item) => type_mentions(item, name),
        Type::Tuple(items) => types_mention(items, name),
        Type::Variadic(item) => type_mentions(item, name),
    }
}

/// Whether one of `items` mentions the type named `name`.
pub fn types_mention(items: &Vec<Type>, name: &str) -> (r: bool)
    ensures
        r == named_in(leaves_of(types_view(*items), items.len() as nat), name@),
    decreases items,
{
    let ghost all = types_view(*items);
    let mut found = false;
    let mut i: usize = 0;
    while i < items.len()
        invariant
            i <= items.len(),
            all == types_view(*items),
            found == named_in(leaves_of(all, i as nat), name@),
        decreases items.len() - i,
    {
        let here = type_mentions(&items[i], name);
        proof {
            lemma_named_in_concat(leaves_of(all, i as nat), leaves(all[i as int]), name@);
        }
        found = found || here;
        i += 1;
    }
    found
}

/// Whether the type of one of `params` mentions the type named `name`.
pub fn params_mention(params: &Vec<FunctionParam>, name: &str) -> (r: bool)
    ensures
        r == named_in(param_leaves(params_view(*params), params.len() as nat), name@),
    decreases params,
{
    let ghost all = params_view(*params);
    let mut found = false;
    let mut i: usize = 0;
    while i < params.len()
        invariant
            i <= params.len(),
            all == params_view(*params),
            found == named_in(param_leaves(all, i as nat), name@),
        decreases params.len() - i,
    {
        let here = type_mentions(&params[i].ty, name);
        proof {
            lemma_named_in_concat(param_leaves(all, i as nat), leaves(all[i as int].ty), name@);
        }
        found = found || here;
        i += 1;
    }
    found
}

/// Puts the leaves of `ty` behind what `out` holds.
pub fn collect_leaves(ty: &Type, out: &mut Vec<SingleType>)
    ensures
        views(final(out)@) == views(old(out)@) + leaves(ty@),
    decreases ty,
{
    match ty {
        Type::Function(f) => {
            collect_param_leaves(&f.params, out);
            collect_leaves_of(&f.return_types, out);
        },
        Type::Single(single) => {
            out.push(single.clone());
        },
        Type::MapOf(m) => {
            collect_leaves(&m.key, out);
            collect_leaves(&m.value, out);
        },
        Type::Or(items) => collect_leaves_of(items, out),
        Type::Array(item) => collect_leaves(item, out),
        Type::Tuple(items) => collect_leaves_of(items, out),
        Type::Variadic(item) => collect_leaves(item, out),
    }
}

/// Puts the leaves of every type of `items` behind what `out` holds.
pub fn collect_leaves_of(items: &Vec<Type>, out: &mut Vec<SingleType>)
    ensures
        views(final(out)@) == views(old(out)@) + leaves_of(
            types_view(*items),
            items.len() as nat,
        ),
    decreases items,
{
    let ghost start = views(out@);
    let ghost all = types_view(*items);
    let mut i: usize = 0;
    while i < items.len()
        invariant
            i <= items.len(),
            all == types_view(*items),
            views(out@) == start + leaves_of(all, i as nat),
        decreases items.len() - i,
    {
        collect_leaves(&items[i], out);
        i += 1;
    }
}

/// Puts the leaves of the type of every parameter of `params` behind what
/// `out` holds.
pub fn collect_param_leaves(params: &Vec<FunctionParam>, out: &mut Vec<SingleType>)
    ensures
        views(final(out)@) == views(old(out)@) + param_leaves(
            params_view(*params),
            params.len() as nat,
        ),
    decreases params,
{
    let ghost start = views(out@);
    let ghost all = params_view(*params);
    let mut i: usize = 0;
    while i < params.len()
        invariant
            i <= params.len(),
            all == params_view(*params),
            views(out@) == start + param_leaves(all, i as nat),
        decreases params.len() - i,
    {
        collect_leaves(&params[i].ty, out);
        i += 1;
    }
}

/// A copy of `items` with the same view.
pub fn clone_types(items: &Vec<Type>) -> (r: Vec<Type>)
    ensures
        types_view(r) == types_view(*items),
    decreases items,
{
    let mut out: Vec<Type> = Vec::new();
    let mut i: usize = 0;
    while i < items.len()
        invariant
            i <= items.len(),
            out.len() == i,
            forall|j: int| 0 <= j < i ==> out[j]@ == items[j]@,
        decreases items.len() - i,
    {
        out.push(items[i].clone());
        i += 1;
    }
    out
}

/// A copy of `items` with the same view.
pub fn clone_params(items: &Vec<FunctionParam>) -> (r: Vec<FunctionParam>)
    ensures
        params_view(r) == params_view(*items),
    decreases items,
{
    let mut out: Vec<FunctionParam> = Vec::new();
    let mut i: usize = 0;
    while i < items.len()
        invariant
            i <= items.len(),
            out.len() == i,
            forall|j: int| 0 <= j < i ==> out[j]@ == items[j]@,
        decreases items.len() - i,
    {
        out.push(items[i].clone());
        i += 1;
    }
    out
}

impl Clone for SingleType {
    fn clone(&self) -> (r: Self)
        ensures
            r@ == self@,
        decreases self,
    {
        SingleType {
            name: self.name.clone(),
            kind: self.kind,
            generics: clone_types(&self.generics),
        }
    }
}

impl Clone for FunctionParam {
    fn clone(&self) -> (r: Self)
        ensures
            r@ == self@,
        decreases self,
    {
        let param_name = match &self.param_name {
            Some(name) => Some(name.clone()),
            None => None,
        };
        FunctionParam { param_name, ty: self.ty.clone() }
    }
}

impl Clone for FunctionRepresentation {
    fn clone(&self) -> (r: Self)
        ensures
            Type::Function(r)@ == Type::Function(*self)@,
        decreases self,
    {
        FunctionRepresentation {
            params: clone_params(&self.params),
            return_types: clone_types(&self.return_types),
        }
    }
}

impl Clone for MapRepresentation {
    fn clone(&self) -> (r: Self)
        ensures
            Type::MapOf(r)@ == Type::MapOf(*self)@,
        decreases self,
    {
        MapRepresentation {
            key: Box::new((*self.key).clone()),
            value: Box::new((*self.value).clone()),
        }
    }
}

impl Clone for Type {
    fn clone(&self) -> (r: Self)
        ensures
            r@ == self@,
        decreases self,
    {
        match self {
            Type::Function(f) => Type::Function(f.clone()),
            Type::Single(single) => Type::Single(single.clone()),
            Type::MapOf(m) => Type::MapOf(m.clone()),
            Type::Or(items) => Type::Or(clone_types(items)),
            Type::Array(item) => Type::Array(Box::new((**item).clone())),
            Type::Tuple(items) => Type::Tuple(clone_types(items)),
            Type::Variadic(item) => Type::Variadic(Box::new((**item).clone())),
        }
    }
}

/// Whether two strings hold the same text.
pub fn same_text(a: &String, b: &String) -> (r: bool)
    ensures
        r == (a@ == b@),
{
    *a == *b
}

/// Whether two lists hold the same type expressions in the same order.
pub fn same_types(xs: &Vec<Type>, ys: &Vec<Type>) -> (r: bool)
    ensures
        r == (types_view(*xs) == types_view(*ys)),
    decreases xs,
{
    assert(types_view(*xs).len() == xs.len());
    if xs.len() != ys.len() {
        return false;
    }
    let mut i: usize = 0;
    while i < xs.len()
        invariant
            i <= xs.len(),
            xs.len() == ys.len(),
            forall|j: int| 0 <= j < i ==> xs[j]@ == ys[j]@,
        decreases xs.len() - i,
    {
        if !same_type(&xs[i], &ys[i]) {
            assert(types_view(*xs)[i as int] == xs[i as int]@);
            return false;
        }
        i += 1;
    }
    assert(types_view(*xs) =~= types_view(*ys));
    true
}

/// Whether two parameters have the same name and the same type.
pub fn same_param(a: &FunctionParam, b: &FunctionParam) -> (r: bool)
    ensures
        r == (a@ == b@),
    decreases a,
{
    let same_name = match (&a.param_name, &b.param_name) {
        (Some(x), Some(y)) => same_text(x, y),
        (None, None) => true,
        _ => false,
    };
    same_name && same_type(&a.ty, &b.ty)
}

/// Whether two lists hold the same parameters in the same order.
pub fn same_params(xs: &Vec<FunctionParam>, ys: &Vec<FunctionParam>) -> (r: bool)
    ensures
        r == (params_view(*xs) == params_view(*ys)),
    decreases xs,
{
    assert(params_view(*xs).len() == xs.len());
    if xs.len() != ys.len() {
        return false;
    }
    let mut i: usize = 0;
    while i < xs.len()
        invariant
            i <= xs.len(),
            xs.len() == ys.len(),
            forall|j: int| 0 <= j < i ==> xs[j]@ == ys[j]@,
        decreases xs.len() - i,
    {
        if !same_param(&xs[i], &ys[i]) {
            assert(params_view(*xs)[i as int] == xs[i as int]@);
            return false;
        }
        i += 1;
    }
    assert(params_view(*xs) =~= params_view(*ys));
    true
}

/// Whether two single types have the same name, kind and generic arguments.
pub fn same_single(a: &SingleType, b: &SingleType) -> (r: bool)
    ensures
        r == (a@ == b@),
    decreases a,
{
    same_text(&a.name, &b.name) && a.kind == b.kind && same_types(&a.generics, &b.generics)
}

/// Whether two type expressions are the same expression.
pub fn same_type(a: &Type, b: &Type) -> (r: bool)
    ensures
        r == (a@ == b@),
    decreases a,
{
    match (a, b) {
        (Type::Function(f), Type::Function(g)) => same_params(&f.params, &g.params) && same_types(
            &f.return_types,
            &g.return_types,
        ),
        (Type::Single(x), Type::Single(y)) => same_single(x, y),
        (Type::MapOf(m), Type::MapOf(n)) => same_type(&m.key, &n.key) && same_type(
            &m.value,
            &n.value,
        ),
        (Type::Or(xs), Type::Or(ys)) => same_types(xs, ys),
        (Type::Array(x), Type::Array(y)) => same_type(x, y),
        (Type::Tuple(xs), Type::Tuple(ys)) => same_types(xs, ys),
        (Type::Variadic(x), Type::Variadic(y)) => same_type(x, y),
        _ => false,
    }
}

} // verus!
