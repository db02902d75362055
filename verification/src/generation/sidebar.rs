//! The sidebar: one entry for every page of a type, with the members of the
//! type.

use crate::config::Paths;
use crate::doc_gen::{get_type_name, type_should_be_inlined};
use crate::render_type::{
    index_link, link_finding, link_to_index, link_to_page, link_url, page_link, type_to_link_url,
    LinkDiagnostic, LinkDiagnosticView,
};
use crate::text::{join_path, joined_path};
use crate::type_generator::{
    merge_inlined, merged_inlined, ExportedFunction, ExportedFunctionView, Field, FieldView,
    RecordGenerator, RecordView, TypeGenerator, TypeGeneratorView,
};
use crate::type_model::{views, Type};
use crate::type_walker::TypeWalker;
use vstd::prelude::*;

verus! {

/// A member as the sidebar shows it.
#[derive(Clone, Debug, PartialEq, Eq)]
pub struct Members {
    pub name: String,
}

/// What a [`Members`] stands for.
pub struct MembersView {
    pub name: Seq<char>,
}

impl View for Members {
    type V = MembersView;

    open spec fn view(&self) -> MembersView {
        MembersView { name: self.name@ }
    }
}

/// An entry of the sidebar.
#[derive(Clone, Debug, PartialEq, Eq)]
pub struct SideBar {
    /// The page the entry links to.
    pub link_to: String,
    /// The name the entry is shown under.
    pub name: String,
    /// The members of the type.
    pub members: Vec<Members>,
}

/// What a [`SideBar`] stands for.
pub struct SideBarView {
    pub link_to: Seq<char>,
    pub name: Seq<char>,
    pub members: Seq<MembersView>,
}

impl View for SideBar {
    type V = SideBarView;

    open spec fn view(&self) -> SideBarView {
        SideBarView { link_to: self.link_to@, name: self.name@, members: views(self.members@) }
    }
}

/// The names of `functions` as members.
pub open spec fn function_members(functions: Seq<ExportedFunctionView>) -> Seq<MembersView> {
    functions.map_values(|function: ExportedFunctionView| MembersView { name: function.name })
}

/// The names of `fields` as members.
pub open spec fn field_members(fields: Seq<FieldView>) -> Seq<MembersView> {
    fields.map_values(|field: FieldView| MembersView { name: field.name })
}

/// The `variants` of an enum as members.
pub open spec fn variant_members(variants: Seq<Seq<char>>) -> Seq<MembersView> {
    variants.map_values(|variant: Seq<char>| MembersView { name: variant })
}

/// The members of `record` in the order of the sidebar: the functions, the
/// fields, the methods, and then what is meta.
pub open spec fn record_members(record: RecordView) -> Seq<MembersView> {
    function_members(record.functions) + function_members(record.mut_functions) + field_members(
        record.fields,
    ) + field_members(record.static_fields) + function_members(record.methods)
        + function_members(record.mut_methods) + function_members(record.meta_function)
        + function_members(record.meta_function_mut) + function_members(record.meta_method)
        + function_members(record.meta_method_mut)
}

/// The members of `ty`: those of a record, or the variants of an enum.
pub open spec fn members_of(ty: TypeGeneratorView) -> Seq<MembersView> {
    match ty {
        TypeGeneratorView::Record(record) => record_members(record),
        TypeGeneratorView::Enum(e) => variant_members(e.variants),
    }
}

/// Where the page of `ty` is below `base`: where the link to the type goes,
/// and, for a type that no link goes to, the page called after the type.
pub open spec fn type_url(
    ty: TypeGeneratorView,
    types: Seq<TypeGeneratorView>,
    base: Seq<char>,
) -> Seq<char> {
    match ty.single() {
        Some(single) => match link_url(single, types, base) {
            Some(url) => url,
            None => page_link(base, ty.shown_name()),
        },
        None => page_link(base, ty.shown_name()),
    }
}

/// What is found while the page of `ty` is looked for.
pub open spec fn type_url_finding(ty: TypeGeneratorView, types: Seq<TypeGeneratorView>) -> Option<
    LinkDiagnosticView,
> {
    match ty.single() {
        Some(single) => link_finding(single, types),
        None => None,
    }
}

/// The entry of the type `ty`, which has a page of its own.
pub open spec fn type_entry(
    ty: TypeGeneratorView,
    types: Seq<TypeGeneratorView>,
    base: Seq<char>,
) -> SideBarView {
    SideBarView {
        link_to: joined_path(base, type_url(ty, types, base)),
        name: ty.shown_name(),
        members: members_of(ty),
    }
}

/// The entry of the index, which stands for every inlined record: it bears
/// the name of the library and holds the members of all of them.
pub open spec fn index_entry(
    types: Seq<TypeGeneratorView>,
    library: Seq<char>,
    base: Seq<char>,
) -> SideBarView {
    SideBarView {
        link_to: joined_path(base, index_link(base)),
        name: library,
        members: record_members(merged_inlined(types, types.len())),
    }
}

/// Whether one of the first `n` of `types` is inlined.
pub open spec fn inlined_before(types: Seq<TypeGeneratorView>, n: nat) -> bool {
    exists|i: int| 0 <= i < n && i < types.len() && (#[trigger] types[i]).is_inlined()
}

/// The entries for the first `n` of `types`: one for each type with a page
/// of its own, in the order of the graph, and one for the index where the
/// first inlined record stands.
pub open spec fn sidebar_entries(
    types: Seq<TypeGeneratorView>,
    n: nat,
    library: Seq<char>,
    base: Seq<char>,
) -> Seq<SideBarView>
    decreases n,
{
    if 0 < n <= types.len() {
        let before = sidebar_entries(types, (n - 1) as nat, library, base);
        if types[n - 1].is_inlined() {
            if inlined_before(types, (n - 1) as nat) {
                before
            } else {
                before.push(index_entry(types, library, base))
            }
        } else {
            before.push(type_entry(types[n - 1], types, base))
        }
    } else {
        Seq::empty()
    }
}

/// What is found while the links of the first `n` of `types` are made.
pub open spec fn sidebar_findings(types: Seq<TypeGeneratorView>, n: nat) -> Seq<LinkDiagnosticView>
    decreases n,
{
    if 0 < n <= types.len() {
        let before = sidebar_findings(types, (n - 1) as nat);
        if types[n - 1].is_inlined() {
            before
        } else {
            match type_url_finding(types[n - 1], types) {
                Some(diagnostic) => before.push(diagnostic),
                None => before,
            }
        }
    } else {
        Seq::empty()
    }
}

fn push_function_members(functions: &Vec<ExportedFunction>, members: &mut Vec<Members>)
    ensures
        views(final(members)@) == views(old(members)@) + function_members(views(functions@)),
{
    let ghost start = views(members@);
    let ghost added = function_members(views(functions@));
    let mut i: usize = 0;
    while i < functions.len()
        invariant
            i <= functions.len(),
            added == function_members(views(functions@)),
            views(members@) == start + added.take(i as int),
        decreases functions.len() - i,
    {
        let ghost before = views(members@);
        members.push(Members { name: functions[i].name.clone() });
        assert(views(members@) =~= before.push(added[i as int]));
        i += 1;
    }
}

fn push_field_members(fields: &Vec<Field>, members: &mut Vec<Members>)
    ensures
        views(final(members)@) == views(old(members)@) + field_members(views(fields@)),
{
    let ghost start = views(members@);
    let ghost added = field_members(views(fields@));
    let mut i: usize = 0;
    while i < fields.len()
        invariant
            i <= fields.len(),
            added == field_members(views(fields@)),
            views(members@) == start + added.take(i as int),
        decreases fields.len() - i,
    {
        let ghost before = views(members@);
        members.push(Members { name: fields[i].name.clone() });
        assert(views(members@) =~= before.push(added[i as int]));
        i += 1;
    }
}

/// The members of `record` in the order of the sidebar.
pub fn members_of_record(record: &RecordGenerator) -> (members: Vec<Members>)
    ensures
        views(members@) == record_members(record@),
{
    let mut members: Vec<Members> = Vec::new();
    push_function_members(&record.functions, &mut members);
    push_function_members(&record.mut_functions, &mut members);
    push_field_members(&record.fields, &mut members);
    push_field_members(&record.static_fields, &mut members);
    push_function_members(&record.methods, &mut members);
    push_function_members(&record.mut_methods, &mut members);
    push_function_members(&record.meta_function, &mut members);
    push_function_members(&record.meta_function_mut, &mut members);
    push_function_members(&record.meta_method, &mut members);
    push_function_members(&record.meta_method_mut, &mut members);
    members
}

/// The members of `ty` as the sidebar lists them.
pub fn members_of_type(ty: &TypeGenerator) -> (members: Vec<Members>)
    ensures
        views(members@) == members_of(ty@),
{
    match ty {
        TypeGenerator::Record(record) => members_of_record(record),
        TypeGenerator::Enum(e) => {
            let mut members: Vec<Members> = Vec::new();
            let ghost added = variant_members(views(e.variants@));
            let mut i: usize = 0;
            while i < e.variants.len()
                invariant
                    i <= e.variants.len(),
                    added == variant_members(views(e.variants@)),
                    views(members@) == added.take(i as int),
                decreases e.variants.len() - i,
            {
                let ghost before = views(members@);
                members.push(Members { name: e.variants[i].clone() });
                assert(views(members@) =~= before.push(added[i as int]));
                i += 1;
            }
            members
        },
    }
}

/// Where the page of `ty` is below `base`, and what was found on the way.
pub fn page_of_type(ty: &TypeGenerator, all_types: &Vec<TypeGenerator>, base: &str) -> (found: (
    String,
    Option<LinkDiagnostic>,
))
    ensures
        found.0@ == type_url(ty@, views(all_types@), base@),
        match found.1 {
            Some(diagnostic) => type_url_finding(ty@, views(all_types@)) == Some(diagnostic@),
            None => type_url_finding(ty@, views(all_types@)) is None,
        },
{
    match ty.ty() {
        Type::Single(single) => {
            let link = type_to_link_url(single, all_types, base);
            let url = match link.url {
                Some(url) => url,
                None => link_to_page(base, get_type_name(ty).as_str()),
            };
            (url, link.diagnostic)
        },
        _ => {
            (link_to_page(base, get_type_name(ty).as_str()), None)
        },
    }
}

/// The sidebar of the pages of `type_defs`, which stand below `link_path`,
/// and what was found while the links were made.
///
/// The entries follow the order of the graph. A type with a page of its own
/// has an entry under its name. The inlined records share one entry, which
/// bears the name of the library, links to the index and stands where the
/// first of them stands in the graph.
pub fn generate_sidebar_data(type_defs: &TypeWalker, paths: &Paths, link_path: &str) -> (sidebar: (
    Vec<SideBar>,
    Vec<LinkDiagnostic>,
))
    ensures
        views(sidebar.0@) == sidebar_entries(
            type_defs@.given_types,
            type_defs@.given_types.len(),
            paths.name@,
            link_path@,
        ),
        views(sidebar.1@) == sidebar_findings(type_defs@.given_types, type_defs@.given_types.len()),
{
    let types = &type_defs.given_types;
    let ghost all = views(types@);
    let mut entries: Vec<SideBar> = Vec::new();
    let mut findings: Vec<LinkDiagnostic> = Vec::new();
    let mut seen_inlined = false;
    let mut i: usize = 0;
    while i < types.len()
        invariant
            i <= types.len(),
            all == views(types@),
            seen_inlined == inlined_before(all, i as nat),
            views(entries@) == sidebar_entries(all, i as nat, paths.name@, link_path@),
            views(findings@) == sidebar_findings(all, i as nat),
        decreases types.len() - i,
    {
        let ty = &types[i];
        if type_should_be_inlined(ty) {
            if !seen_inlined {
                let merged = merge_inlined(types);
                let entry = SideBar {
                    link_to: join_path(link_path, link_to_index(link_path).as_str()),
                    name: paths.name.clone(),
                    members: members_of_record(&merged),
                };
                entries.push(entry);
            }
            seen_inlined = true;
        } else {
            let (url, finding) = page_of_type(ty, types, link_path);
            let entry = SideBar {
                link_to: join_path(link_path, url.as_str()),
                name: get_type_name(ty).clone(),
                members: members_of_type(ty),
            };
            entries.push(entry);
            if let Some(diagnostic) = finding {
                findings.push(diagnostic);
            }
        }
        i += 1;
    }
    (entries, findings)
}

} // verus!
