//! Links: where the page of a type is, and which generic placeholders a type
//! expression holds.

use crate::text::{concat_str, join_path, joined_path, same_str, sanitize, sanitized};
use crate::type_generator::{TypeGenerator, TypeGeneratorView};
use crate::type_model::{
    clone_types, collect_leaves_of, collect_param_leaves, leaves_of, param_leaves, same_type,
    types_view, views, FunctionRepresentation, KindOfType, MapRepresentation, SingleType,
    SingleTypeView, Type, TypeView,
};
use vstd::prelude::*;

verus! {

/// Whether two single types can stand for each other in a link: they have
/// the same name and the same number of generic arguments. The arguments
/// themselves are not held against each other.
pub open spec fn compatible(ty: SingleTypeView, other: SingleTypeView) -> bool {
    ty.name == other.name && ty.generics.len() == other.generics.len()
}

/// Whether `ty` and `other` have the same name and the same number of
/// generic arguments.
pub fn is_type_compatible(ty: &SingleType, other: SingleType) -> (r: bool)
    ensures
        r == compatible(ty@, other@),
{
    is_type_compatible_helper(ty, &other)
}

pub(crate) fn is_type_compatible_helper(ty: &SingleType, other: &SingleType) -> (r: bool)
    ensures
        r == compatible(ty@, other@),
{
    same_str(ty.name.as_str(), other.name.as_str()) && ty.generics.len() == other.generics.len()
}

/// The generic singles among the first `n` of `singles`, each once, where it
/// stands first.
pub open spec fn distinct_generics(singles: Seq<SingleTypeView>, n: nat) -> Seq<TypeView>
    decreases n,
{
    if 0 < n <= singles.len() {
        let before = distinct_generics(singles, (n - 1) as nat);
        let generic = TypeView::Single(singles[n - 1]);
        if singles[n - 1].kind == KindOfType::Generic && !before.contains(generic) {
            before.push(generic)
        } else {
            before
        }
    } else {
        Seq::empty()
    }
}

/// The generic placeholders that `ty` holds, from left to right.
///
/// A single type counts itself, where it is a placeholder, and then what its
/// generic arguments hold. A function type counts the placeholders among its
/// leaves, each once.
pub open spec fn generics_in(ty: TypeView) -> Seq<TypeView>
    decreases ty, 0nat,
{
    match ty {
        TypeView::Function { params, return_types } => {
            let singles = param_leaves(params, params.len()) + leaves_of(
                return_types,
                return_types.len(),
            );
            distinct_generics(singles, singles.len())
        },
        TypeView::Single(single) => if single.kind == KindOfType::Generic {
            seq![ty] + generics_in_all(single.generics, single.generics.len())
        } else {
            generics_in_all(single.generics, single.generics.len())
        },
        TypeView::MapOf { key, value } => generics_in(*key) + generics_in(*value),
        TypeView::Or(items) => generics_in_all(items, items.len()),
        TypeView::Array(item) => generics_in(*item),
        TypeView::Tuple(items) => generics_in_all(items, items.len()),
        TypeView::Variadic(item) => generics_in(*item),
    }
}

/// The generic placeholders that the first `n` of `items` hold.
pub open spec fn generics_in_all(items: Seq<TypeView>, n: nat) -> Seq<TypeView>
    decreases items, n,
{
    if 0 < n <= items.len() {
        generics_in_all(items, (n - 1) as nat) + generics_in(items[n - 1])
    } else {
        Seq::empty()
    }
}

/// Whether `wanted` is one of `types`.
fn holds_type(types: &Vec<Type>, wanted: &Type) -> (r: bool)
    ensures
        r == types_view(*types).contains(wanted@),
{
    let ghost all = types_view(*types);
    let mut i: usize = 0;
    while i < types.len()
        invariant
            i <= types.len(),
            all == types_view(*types),
            forall|j: int| 0 <= j < i ==> all[j] != wanted@,
        decreases types.len() - i,
    {
        assert(all[i as int] == types[i as int]@);
        if same_type(&types[i], wanted) {
            return true;
        }
        i += 1;
    }
    false
}

fn append_types(out: &mut Vec<Type>, mut more: Vec<Type>)
    ensures
        types_view(*final(out)) == types_view(*old(out)) + types_view(more),
{
    let ghost start = types_view(*out);
    let ghost added = types_view(more);
    let ghost before = out@;
    let ghost tail = more@;
    out.append(&mut more);
    assert(out@ == before + tail);
    assert forall|i: int| 0 <= i < out.len() implies #[trigger] types_view(*out)[i] == (start
        + added)[i] by {
        if i < before.len() {
            assert(out@[i] == before[i]);
        } else {
            assert(out@[i] == tail[i - before.len()]);
        }
    }
    assert(types_view(*out) =~= start + added);
}

/// Every generic placeholder that `ty` holds, as [`generics_in`] lists them.
pub fn find_all_generics(ty: &Type) -> (generics: Vec<Type>)
    ensures
        types_view(generics) == generics_in(ty@),
    decreases ty,
{
    let mut generics: Vec<Type> = Vec::new();
    match ty {
        Type::Function(f) => {
            let mut singles: Vec<SingleType> = Vec::new();
            collect_param_leaves(&f.params, &mut singles);
            collect_leaves_of(&f.return_types, &mut singles);
            let ghost all = views(singles@);
            let mut i: usize = 0;
            while i < singles.len()
                invariant
                    i <= singles.len(),
                    all == views(singles@),
                    types_view(generics) == distinct_generics(all, i as nat),
                decreases singles.len() - i,
            {
                if singles[i].kind.is_generic() {
                    let generic = Type::Single(singles[i].clone());
                    if !holds_type(&generics, &generic) {
                        generics.push(generic);
                    }
                }
                i += 1;
            }
        },
        Type::Single(single) => {
            if single.kind.is_generic() {
                generics.push(Type::Single(single.clone()));
            }
            let in_arguments = find_generics_of_all(&single.generics);
            append_types(&mut generics, in_arguments);
            assert(ty@ == TypeView::Single(single@));
        },
        Type::MapOf(m) => {
            let in_key = find_all_generics(&m.key);
            let in_value = find_all_generics(&m.value);
            append_types(&mut generics, in_key);
            append_types(&mut generics, in_value);
        },
        Type::Or(items) => {
            generics = find_generics_of_all(items);
        },
        Type::Array(item) => {
            generics = find_all_generics(item);
        },
        Type::Tuple(items) => {
            generics = find_generics_of_all(items);
        },
        Type::Variadic(item) => {
            generics = find_all_generics(item);
        },
    }
    generics
}

fn find_generics_of_all(items: &Vec<Type>) -> (generics: Vec<Type>)
    ensures
        types_view(generics) == generics_in_all(types_view(*items), items.len() as nat),
    decreases items,
{
    let mut generics: Vec<Type> = Vec::new();
    let ghost all = types_view(*items);
    let mut i: usize = 0;
    while i < items.len()
        invariant
            i <= items.len(),
            all == types_view(*items),
            types_view(generics) == generics_in_all(all, i as nat),
        decreases items.len() - i,
    {
        let more = find_all_generics(&items[i]);
        append_types(&mut generics, more);
        i += 1;
    }
    generics
}

/// What went wrong while a link was made. No such finding stops the run.
#[derive(Clone, Debug, PartialEq, Eq)]
pub enum LinkDiagnostic {
    /// No exported type has the name that was asked for.
    UnknownType(String),
    /// More than one exported type has the name; the first one was taken.
    AmbiguousType(String),
}

/// What a [`LinkDiagnostic`] stands for.
pub enum LinkDiagnosticView {
    UnknownType(Seq<char>),
    AmbiguousType(Seq<char>),
}

impl View for LinkDiagnostic {
    type V = LinkDiagnosticView;

    open spec fn view(&self) -> LinkDiagnosticView {
        match self {
            LinkDiagnostic::UnknownType(name) => LinkDiagnosticView::UnknownType(name@),
            LinkDiagnostic::AmbiguousType(name) => LinkDiagnosticView::AmbiguousType(name@),
        }
    }
}

impl LinkDiagnosticView {
    /// The line that tells of the finding.
    pub open spec fn message(self) -> Seq<char> {
        match self {
            LinkDiagnosticView::UnknownType(name) => "Tried making link to unknown type: "@ + name,
            LinkDiagnosticView::AmbiguousType(name) => "Multiple types with the same name: "@
                + name,
        }
    }
}

impl LinkDiagnostic {
    /// The line that tells of the finding.
    pub fn message(&self) -> (line: String)
        ensures
            line@ == self@.message(),
    {
        match self {
            LinkDiagnostic::UnknownType(name) => concat_str(
                "Tried making link to unknown type: ",
                name.as_str(),
            ),
            LinkDiagnostic::AmbiguousType(name) => concat_str(
                "Multiple types with the same name: ",
                name.as_str(),
            ),
        }
    }
}

/// A link and what was found on the way to it.
#[derive(Clone, Debug, PartialEq, Eq)]
pub struct ResolvedLink {
    /// Where the page is; `None` where the type is unknown.
    pub url: Option<String>,
    pub diagnostic: Option<LinkDiagnostic>,
}

/// What a [`ResolvedLink`] stands for.
pub struct ResolvedLinkView {
    pub url: Option<Seq<char>>,
    pub diagnostic: Option<LinkDiagnosticView>,
}

impl View for ResolvedLink {
    type V = ResolvedLinkView;

    open spec fn view(&self) -> ResolvedLinkView {
        ResolvedLinkView {
            url: match self.url {
                Some(url) => Some(url@),
                None => None,
            },
            diagnostic: match self.diagnostic {
                Some(diagnostic) => Some(diagnostic@),
                None => None,
            },
        }
    }
}

/// The name of the page that holds what is inlined.
pub open spec fn index_name() -> Seq<char> {
    "index"@
}

/// What is put behind the name of a page to make its file name.
pub open spec fn page_extension() -> Seq<char> {
    ".html"@
}

/// The file name of the page called `name`: the whole of `name` as the
/// sanitizer leaves it, dots and all, with the extension of a page behind
/// it.
pub open spec fn page_file_name(name: Seq<char>) -> Seq<char> {
    sanitized(name) + page_extension()
}

/// The page called `name` under `base`.
pub open spec fn page_link(base: Seq<char>, name: Seq<char>) -> Seq<char> {
    joined_path(base, page_file_name(name))
}

/// The index page under `base`.
pub open spec fn index_link(base: Seq<char>) -> Seq<char> {
    joined_path(base, "index.html"@)
}

/// Whether `candidate` is an exported type that `wanted` can refer to.
pub open spec fn answers(candidate: TypeGeneratorView, wanted: SingleTypeView) -> bool {
    candidate.single() matches Some(own) && compatible(own, wanted)
}

/// The places among the first `n` of `types` that `wanted` can refer to.
pub open spec fn candidates(types: Seq<TypeGeneratorView>, n: nat, wanted: SingleTypeView) -> Seq<
    int,
>
    decreases n,
{
    if 0 < n <= types.len() {
        let before = candidates(types, (n - 1) as nat, wanted);
        if answers(types[n - 1], wanted) {
            before.push(n - 1)
        } else {
            before
        }
    } else {
        Seq::empty()
    }
}

/// Where the link to `wanted` goes among `types`, for pages that stand under
/// `base`.
///
/// Where no type answers: to `base` itself, if `wanted` is called as the
/// index is, else nowhere. Where some do: to the page of the first of them,
/// which is the index page if that type is inlined.
pub open spec fn link_url(
    wanted: SingleTypeView,
    types: Seq<TypeGeneratorView>,
    base: Seq<char>,
) -> Option<Seq<char>> {
    let found = candidates(types, types.len(), wanted);
    if found.len() == 0 {
        if wanted.name == index_name() {
            Some(base)
        } else {
            None
        }
    } else if types[found[0]].is_inlined() {
        Some(index_link(base))
    } else {
        Some(page_link(base, wanted.name))
    }
}

/// What is found while the link to `wanted` is made: that the type is
/// unknown, where no type answers and the index is not meant; that the name
/// is ambiguous, where more than one type answers; else nothing.
pub open spec fn link_finding(wanted: SingleTypeView, types: Seq<TypeGeneratorView>) -> Option<
    LinkDiagnosticView,
> {
    let found = candidates(types, types.len(), wanted);
    if found.len() == 0 {
        if wanted.name == index_name() {
            None
        } else {
            Some(LinkDiagnosticView::UnknownType(wanted.name))
        }
    } else if found.len() >= 2 {
        Some(LinkDiagnosticView::AmbiguousType(wanted.name))
    } else {
        None
    }
}

/// The link to `wanted` among `types`, for pages that stand under `base`,
/// with what was found on the way.
pub open spec fn resolved_link(
    wanted: SingleTypeView,
    types: Seq<TypeGeneratorView>,
    base: Seq<char>,
) -> ResolvedLinkView {
    ResolvedLinkView { url: link_url(wanted, types, base), diagnostic: link_finding(wanted, types) }
}

/// The index page under `base`.
pub fn link_to_index(base: &str) -> (url: String)
    ensures
        url@ == index_link(base@),
{
    join_path(base, "index.html")
}

/// The page called `name` under `base`.
pub fn link_to_page(base: &str, name: &str) -> (url: String)
    ensures
        url@ == page_link(base@, name@),
{
    let file = concat_str(sanitize(name).as_str(), ".html");
    join_path(base, file.as_str())
}

/// Resolves `ty` to the page of the exported type it refers to, as
/// [`resolved_link`] says.
pub fn type_to_link_url(ty: &SingleType, all_types: &Vec<TypeGenerator>, link_path: &str) -> (link:
    ResolvedLink)
    ensures
        link@ == resolved_link(ty@, views(all_types@), link_path@),
{
    let ghost types = views(all_types@);
    let mut first: Option<usize> = None;
    let mut many = false;
    let mut i: usize = 0;
    while i < all_types.len()
        invariant
            i <= all_types.len(),
            types == views(all_types@),
            first is None <==> candidates(types, i as nat, ty@).len() == 0,
            first matches Some(at) ==> at < i && candidates(types, i as nat, ty@)[0] == at,
            many == (candidates(types, i as nat, ty@).len() >= 2),
        decreases all_types.len() - i,
    {
        let answers_here = match all_types[i].ty() {
            Type::Single(own) => {
                is_type_compatible_helper(own, ty)
            },
            _ => {
                false
            },
        };
        if answers_here {
            if first.is_some() {
                many = true;
            } else {
                first = Some(i);
            }
        }
        i += 1;
    }
    match first {
        None => {
            if same_str(ty.name.as_str(), "index") {
                ResolvedLink { url: Some(link_path.to_owned()), diagnostic: None }
            } else {
                ResolvedLink {
                    url: None,
                    diagnostic: Some(LinkDiagnostic::UnknownType(ty.name.clone())),
                }
            }
        },
        Some(at) => {
            let url = if all_types[at].is_inlined() {
                link_to_index(link_path)
            } else {
                link_to_page(link_path, ty.name.as_str())
            };
            let diagnostic = if many {
                Some(LinkDiagnostic::AmbiguousType(ty.name.clone()))
            } else {
                None
            };
            ResolvedLink { url: Some(url), diagnostic }
        },
    }
}

/// Resolving a link gives the same answer every time: the answer is a
/// function of the type that is asked for, of the exported types and of the
/// place of the pages, and of nothing else.
pub proof fn lemma_link_resolution_repeats(
    first: ResolvedLinkView,
    second: ResolvedLinkView,
    wanted: SingleTypeView,
    types: Seq<TypeGeneratorView>,
    base: Seq<char>,
)
    requires
        first == resolved_link(wanted, types, base),
        second == resolved_link(wanted, types, base),
    ensures
        first == second,
{
}

/// Where several exported types answer to one name, the link goes to the
/// first of them in the order of the graph, and exactly one finding is made.
pub proof fn lemma_ambiguous_name_takes_first(
    wanted: SingleTypeView,
    types: Seq<TypeGeneratorView>,
    base: Seq<char>,
    first: int,
    second: int,
)
    requires
        0 <= first < second < types.len(),
        answers(types[first], wanted),
        answers(types[second], wanted),
        forall|i: int| 0 <= i < first ==> !answers(types[i], wanted),
    ensures
        resolved_link(wanted, types, base).url == Some(
            if types[first].is_inlined() {
                index_link(base)
            } else {
                page_link(base, wanted.name)
            },
        ),
        resolved_link(wanted, types, base).diagnostic == Some(
            LinkDiagnosticView::AmbiguousType(wanted.name),
        ),
{
    lemma_candidates_before_first(types, first as nat, wanted);
    lemma_candidates_grow(types, (first + 1) as nat, second as nat, wanted);
    lemma_candidates_grow(types, (second + 1) as nat, types.len(), wanted);
}

proof fn lemma_candidates_before_first(
    types: Seq<TypeGeneratorView>,
    n: nat,
    wanted: SingleTypeView,
)
    requires
        n <= types.len(),
        forall|i: int| 0 <= i < n ==> !answers(types[i], wanted),
    ensures
        candidates(types, n, wanted) == Seq::<int>::empty(),
    decreases n,
{
    if n > 0 {
        lemma_candidates_before_first(types, (n - 1) as nat, wanted);
    }
}

proof fn lemma_candidates_grow(
    types: Seq<TypeGeneratorView>,
    n: nat,
    m: nat,
    wanted: SingleTypeView,
)
    requires
        n <= m <= types.len(),
    ensures
        candidates(types, n, wanted).len() <= candidates(types, m, wanted).len(),
        forall|i: int|
            0 <= i < candidates(types, n, wanted).len() ==> candidates(types, m, wanted)[i]
                == candidates(types, n, wanted)[i],
    decreases m - n,
{
    if n < m {
        lemma_candidates_grow(types, n, (m - 1) as nat, wanted);
    }
}

/// How each shape of a type expression is rendered: one function for each
/// shape, which is handed what the shape holds and a value of the caller's.
pub struct RenderOptions<FF, FS, FM, FO, FA, FT, FV> {
    pub function: FF,
    pub single: FS,
    pub map: FM,
    pub or: FO,
    pub array: FA,
    pub tuple: FT,
    pub variadic: FV,
}

/// Renders `ty` with the function of `options` that is meant for its shape.
/// The function is handed a copy of what `ty` holds, and `extra_value`; what
/// it returns is returned.
pub fn render_type<X, R, FF, FS, FM, FO, FA, FT, FV>(
    ty: &Type,
    options: RenderOptions<FF, FS, FM, FO, FA, FT, FV>,
    extra_value: X,
) -> (rendered: R) where
    FF: FnOnce(FunctionRepresentation, X) -> R,
    FS: FnOnce(SingleType, X) -> R,
    FM: FnOnce(MapRepresentation, X) -> R,
    FO: FnOnce(Vec<Type>, X) -> R,
    FA: FnOnce(Type, X) -> R,
    FT: FnOnce(Vec<Type>, X) -> R,
    FV: FnOnce(Type, X) -> R,

    requires
        forall|held: FunctionRepresentation| options.function.requires((held, extra_value)),
        forall|held: SingleType| options.single.requires((held, extra_value)),
        forall|held: MapRepresentation| options.map.requires((held, extra_value)),
        forall|held: Vec<Type>| options.or.requires((held, extra_value)),
        forall|held: Type| options.array.requires((held, extra_value)),
        forall|held: Vec<Type>| options.tuple.requires((held, extra_value)),
        forall|held: Type| options.variadic.requires((held, extra_value)),
    ensures
        match ty {
            Type::Function(_) => exists|held: FunctionRepresentation|
                Type::Function(held)@ == ty@ && options.function.ensures(
                    (held, extra_value),
                    rendered,
                ),
            Type::Single(_) => exists|held: SingleType|
                Type::Single(held)@ == ty@ && options.single.ensures((held, extra_value), rendered),
            Type::MapOf(_) => exists|held: MapRepresentation|
                Type::MapOf(held)@ == ty@ && options.map.ensures((held, extra_value), rendered),
            Type::Or(_) => exists|held: Vec<Type>|
                Type::Or(held)@ == ty@ && options.or.ensures((held, extra_value), rendered),
            Type::Array(_) => exists|held: Type|
                Type::Array(Box::new(held))@ == ty@ && options.array.ensures(
                    (held, extra_value),
                    rendered,
                ),
            Type::Tuple(_) => exists|held: Vec<Type>|
                Type::Tuple(held)@ == ty@ && options.tuple.ensures((held, extra_value), rendered),
            Type::Variadic(_) => exists|held: Type|
                Type::Variadic(Box::new(held))@ == ty@ && options.variadic.ensures(
                    (held, extra_value),
                    rendered,
                ),
        },
{
    match ty {
        Type::Function(f) => {
            let held = f.clone();
            (options.function)(held, extra_value)
        },
        Type::Single(single) => {
            let held = single.clone();
            assert(Type::Single(held)@ == ty@);
            (options.single)(held, extra_value)
        },
        Type::MapOf(m) => {
            let held = m.clone();
            (options.map)(held, extra_value)
        },
        Type::Or(items) => {
            let held = clone_types(items);
            assert(Type::Or(held)@ == ty@);
            (options.or)(held, extra_value)
        },
        Type::Array(item) => {
            let held = (**item).clone();
            assert(Type::Array(Box::new(held))@ == ty@);
            (options.array)(held, extra_value)
        },
        Type::Tuple(items) => {
            let held = clone_types(items);
            assert(Type::Tuple(held)@ == ty@);
            (options.tuple)(held, extra_value)
        },
        Type::Variadic(item) => {
            let held = (**item).clone();
            assert(Type::Variadic(Box::new(held))@ == ty@);
            (options.variadic)(held, extra_value)
        },
    }
}

} // verus!
