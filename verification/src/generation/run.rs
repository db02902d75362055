//! A run: everything that is written for a library, decided before anything
//! is written.

use crate::config::{
    template_named, DefTemplateConfig, DefTemplateConfigView, DefTemplateKind,
    DefTemplateKindView, LuaAddon, Paths, TypeDefFile,
};
use crate::find_uses::{find_users, users_of};
use crate::generation::definition_file::{
    create_d_file, definition_files, definition_folder, runner_source, DefinitionPlan,
};
use crate::generation::html::{
    are_sources_of, get_page_name, template_sources, CustomPage, IndexPage, TemplateSources,
    TypeDesc, TypeOrPage, TypeOrPageView,
};
use crate::generation::lua_addon::{create_lua_addon, is_addon_for, AddonArchive};
use crate::generation::missing_exports::{
    missing_exports, reports, warn_about_missing_exports, MissingExport,
};
use crate::generation::sidebar::{
    generate_sidebar_data, page_of_type, sidebar_entries, sidebar_findings, type_url,
    type_url_finding, SideBar,
};
use crate::render_type::{
    candidates, index_link, link_to_index, link_to_page, link_url, page_link,
    LinkDiagnostic, LinkDiagnosticView,
};
use crate::text::{join_path, joined_path, same_str};
use crate::type_generator::{merge_inlined, merged_inlined, TypeGenerator, TypeGeneratorView};
use crate::type_model::{views, SingleTypeView};
use crate::type_walker::{ExtraPageView, TypeWalker, TypeWalkerView};
use vstd::prelude::*;

verus! {

/// A page that a run writes.
#[derive(Clone, Debug, PartialEq, Eq)]
pub struct PlannedPage<'a> {
    /// What the template is handed for the page.
    pub page: TypeOrPage<'a>,
    /// The file the page is written to.
    pub path: String,
    /// What was found while the path was made.
    pub finding: Option<LinkDiagnostic>,
}

/// What a [`PlannedPage`] stands for.
pub struct PlannedPageView {
    pub page: TypeOrPageView,
    pub path: Seq<char>,
    pub finding: Option<LinkDiagnosticView>,
}

impl<'a> View for PlannedPage<'a> {
    type V = PlannedPageView;

    open spec fn view(&self) -> PlannedPageView {
        PlannedPageView {
            page: self.page@,
            path: self.path@,
            finding: match self.finding {
                Some(finding) => Some(finding@),
                None => None,
            },
        }
    }
}

/// The page of the type `ty` of `graph`, which is written below `base` to
/// where the links to the type go.
pub open spec fn type_page(
    ty: TypeGeneratorView,
    graph: TypeWalkerView,
    base: Seq<char>,
) -> PlannedPageView {
    PlannedPageView {
        page: TypeOrPageView::Type {
            type_members: ty,
            page_name: ty.shown_name(),
            used_by: users_of(ty, graph),
        },
        path: type_url(ty, graph.given_types, base),
        finding: type_url_finding(ty, graph.given_types),
    }
}

/// The pages of the first `n` types of `graph`: one for each type that is
/// not inlined.
pub open spec fn type_pages(graph: TypeWalkerView, n: nat, base: Seq<char>) -> Seq<PlannedPageView>
    decreases n,
{
    if 0 < n <= graph.given_types.len() {
        let before = type_pages(graph, (n - 1) as nat, base);
        if graph.given_types[n - 1].is_inlined() {
            before
        } else {
            before.push(type_page(graph.given_types[n - 1], graph, base))
        }
    } else {
        Seq::empty()
    }
}

/// The index page of `graph`: the inlined records merged into one.
pub open spec fn index_page(graph: TypeWalkerView, base: Seq<char>) -> PlannedPageView {
    PlannedPageView {
        page: TypeOrPageView::IndexPage {
            all_types: graph.given_types,
            page_name: "index"@,
            type_members: TypeGeneratorView::Record(
                merged_inlined(graph.given_types, graph.given_types.len()),
            ),
        },
        path: index_link(base),
        finding: None,
    }
}

/// The page of the free text `extra`.
pub open spec fn custom_page(extra: ExtraPageView, base: Seq<char>) -> PlannedPageView {
    PlannedPageView {
        page: TypeOrPageView::CustomPage { name: extra.name, markdown_content: extra.content },
        path: page_link(base, extra.name),
        finding: None,
    }
}

/// The pages of the free texts `extras`.
pub open spec fn custom_pages(extras: Seq<ExtraPageView>, base: Seq<char>) -> Seq<PlannedPageView> {
    extras.map_values(|extra: ExtraPageView| custom_page(extra, base))
}

/// Every page of `graph`, in the order they are written: the pages of the
/// types that are not inlined, the index, and the pages of free text.
pub open spec fn planned_pages(graph: TypeWalkerView, base: Seq<char>) -> Seq<PlannedPageView> {
    type_pages(graph, graph.given_types.len(), base).push(index_page(graph, base)) + custom_pages(
        graph.extra_page,
        base,
    )
}

/// Every page that is written for `type_defs` below `write_path`, as
/// [`planned_pages`] lists them.
pub fn plan_pages<'a>(type_defs: &'a TypeWalker, write_path: &str) -> (pages: Vec<PlannedPage<'a>>)
    ensures
        views(pages@) == planned_pages(type_defs@, write_path@),
{
    let types = &type_defs.given_types;
    let ghost all = views(types@);
    let mut pages: Vec<PlannedPage<'a>> = Vec::new();
    let mut i: usize = 0;
    while i < types.len()
        invariant
            i <= types.len(),
            types == &type_defs.given_types,
            all == views(types@),
            views(pages@) == type_pages(type_defs@, i as nat, write_path@),
        decreases types.len() - i,
    {
        let ty = &types[i];
        if !ty.is_inlined() {
            let (path, finding) = page_of_type(ty, types, write_path);
            let page = PlannedPage {
                page: TypeOrPage::Type(
                    TypeDesc {
                        type_members: ty,
                        page_name: get_page_name(ty),
                        used_by: find_users(ty, type_defs),
                    },
                ),
                path,
                finding,
            };
            pages.push(page);
        }
        i += 1;
    }
    let index = PlannedPage {
        page: TypeOrPage::IndexPage(
            IndexPage {
                all_types: types,
                page_name: "index".to_owned(),
                type_members: TypeGenerator::Record(Box::new(merge_inlined(types))),
            },
        ),
        path: link_to_index(write_path),
        finding: None,
    };
    pages.push(index);
    let ghost start = views(pages@);
    let extras = &type_defs.extra_page;
    let ghost wanted = custom_pages(views(extras@), write_path@);
    let mut k: usize = 0;
    while k < extras.len()
        invariant
            k <= extras.len(),
            wanted == custom_pages(views(extras@), write_path@),
            views(pages@) == start + wanted.take(k as int),
        decreases extras.len() - k,
    {
        let ghost before = views(pages@);
        let page = PlannedPage {
            page: TypeOrPage::CustomPage(
                CustomPage {
                    name: extras[k].name.clone(),
                    markdown_content: extras[k].content.clone(),
                },
            ),
            path: link_to_page(write_path, extras[k].name.as_str()),
            finding: None,
        };
        pages.push(page);
        assert(views(pages@) =~= before.push(wanted[k as int]));
        k += 1;
    }
    pages
}

/// The index page is written to where the links to an inlined type go: for
/// pages below one `base`, the path of the index page is the link to every
/// type that answers first to its name and is inlined.
pub proof fn lemma_index_page_is_where_inlined_types_link(
    graph: TypeWalkerView,
    wanted: SingleTypeView,
    base: Seq<char>,
)
    requires
        candidates(graph.given_types, graph.given_types.len(), wanted).len() > 0,
        graph.given_types[candidates(
            graph.given_types,
            graph.given_types.len(),
            wanted,
        )[0]].is_inlined(),
    ensures
        link_url(wanted, graph.given_types, base) == Some(index_page(graph, base).path),
{
}

/// A page is written to where the links to it go: for pages below one
/// `base`, the link to the single type of a type that has a page is the path
/// of that page.
pub proof fn lemma_page_is_written_where_links_go(
    ty: TypeGeneratorView,
    graph: TypeWalkerView,
    base: Seq<char>,
)
    requires
        ty.single() is Some,
        link_url(ty.single()->0, graph.given_types, base) is Some,
    ensures
        link_url(ty.single()->0, graph.given_types, base) == Some(type_page(ty, graph, base).path),
{
}

/// An inlined record has no page of its own: no page of a type is called
/// after a type that is inlined, whatever the graph holds.
pub proof fn lemma_inlined_types_have_no_page(graph: TypeWalkerView, n: nat, base: Seq<char>)
    requires
        n <= graph.given_types.len(),
    ensures
        forall|i: int|
            0 <= i < type_pages(graph, n, base).len() ==> ((#[trigger] type_pages(
                graph,
                n,
                base,
            )[i]).page matches TypeOrPageView::Type { type_members, .. }
                && !type_members.is_inlined()),
    decreases n,
{
    if n > 0 {
        lemma_inlined_types_have_no_page(graph, (n - 1) as nat, base);
    }
}

/// Where the pages of the site `root` stand for a link: below the root of
/// the site.
pub open spec fn site_link_path(root: Seq<char>) -> Seq<char> {
    joined_path("/"@, root)
}

/// Where the pages of the site `root` are written: below the build
/// directory.
pub open spec fn site_write_path(build_dir: Seq<char>, root: Seq<char>) -> Seq<char> {
    joined_path(build_dir, root)
}

/// The definition file that stands for the addon among the configured ones.
pub open spec fn lua_addon_entry() -> DefTemplateConfigView {
    DefTemplateConfigView {
        extension: ".zip"@,
        template: DefTemplateKindView::Custom("Lua language server"@),
    }
}

/// The addon that a run is asked for: none where the configuration is
/// silent.
pub open spec fn addon_asked_for(configured: Option<LuaAddon>) -> LuaAddon {
    match configured {
        Some(addon) => addon,
        None => LuaAddon::False,
    }
}

/// Everything a run writes, and what it tells.
#[derive(Clone, Debug, PartialEq, Eq)]
pub struct SitePlan<'a> {
    /// The types that are used and not exported. They stop nothing.
    pub missing_exports: Vec<MissingExport>,
    /// The directory the pages are written to.
    pub write_path: String,
    /// The definition files.
    pub definitions: DefinitionPlan,
    /// The addon, where one is asked for.
    pub lua_addon: Option<AddonArchive>,
    /// Where the archive of the addon is written; empty where there is none.
    pub lua_addon_path: String,
    /// The kinds of definition file that the pages link to: the configured
    /// ones and, where an addon is made, the addon.
    pub def_files: TypeDefFile,
    /// Where the pages stand for a link.
    pub link_path: String,
    pub sidebar: Vec<SideBar>,
    /// What was found while the sidebar was made.
    pub sidebar_findings: Vec<LinkDiagnostic>,
    /// Where the template of the pages and its runner come from.
    pub template: TemplateSources,
    pub pages: Vec<PlannedPage<'a>>,
    /// The name of the library.
    pub library_name: String,
}

/// Decides everything that the run `paths` writes for `type_defs`, in the
/// order the run goes: the report on missing exports, the definition files,
/// the addon, the sidebar, and the pages.
pub fn run_from_walker<'a>(paths: Paths, type_defs: &'a TypeWalker) -> (plan: SitePlan<'a>)
    requires
        paths.def_config.well_formed(),
    ensures
        reports(
            views(plan.missing_exports@),
            missing_exports(type_defs@),
            missing_exports(type_defs@).len(),
        ),
        plan.write_path@ == site_write_path(paths.build_dir@, paths.root@),
        plan.definitions.folder@ == definition_folder(plan.write_path@),
        plan.definitions.runner@ == runner_source(paths.def_config.runner),
        views(plan.definitions.files@) == definition_files(
            views(paths.def_config.templates@),
            plan.write_path@,
            paths.name@,
        ),
        is_addon_for(
            plan.lua_addon,
            addon_asked_for(paths.lua_addon),
            paths.name@,
            type_defs@,
            paths.is_global,
        ),
        match plan.lua_addon {
            Some(archive) => {
                &&& plan.lua_addon_path@ == joined_path(plan.write_path@, archive.zip_name@)
                &&& template_named(views(plan.def_files.templates@), "lua language server"@)
                    == Some(lua_addon_entry())
                &&& forall|other: Seq<char>|
                    other != "lua language server"@ ==> template_named(
                        views(plan.def_files.templates@),
                        other,
                    ) == template_named(views(paths.def_config.templates@), other)
            },
            None => {
                &&& plan.lua_addon_path@ == Seq::<char>::empty()
                &&& plan.def_files == paths.def_config
            },
        },
        plan.def_files.well_formed(),
        plan.def_files.runner == paths.def_config.runner,
        are_sources_of(plan.template, paths.template_kind),
        plan.link_path@ == site_link_path(paths.root@),
        views(plan.sidebar@) == sidebar_entries(
            type_defs@.given_types,
            type_defs@.given_types.len(),
            paths.name@,
            plan.link_path@,
        ),
        views(plan.sidebar_findings@) == sidebar_findings(
            type_defs@.given_types,
            type_defs@.given_types.len(),
        ),
        views(plan.pages@) == planned_pages(type_defs@, plan.write_path@),
        plan.library_name@ == paths.name@,
{
    let missing_exports = warn_about_missing_exports(type_defs);
    let write_path = join_path(paths.build_dir.as_str(), paths.root.as_str());
    let definitions = create_d_file(&paths.def_config, write_path.as_str(), paths.name.as_str());
    let link_path = join_path("/", paths.root.as_str());
    let (sidebar, sidebar_findings) = generate_sidebar_data(type_defs, &paths, link_path.as_str());
    let pages = plan_pages(type_defs, write_path.as_str());
    let template = template_sources(&paths.template_kind);
    let library_name = paths.name.clone();
    let mut def_files = paths.def_config;
    let addon_config = match paths.lua_addon {
        Some(config) => config,
        None => LuaAddon::False,
    };
    let lua_addon = create_lua_addon(
        addon_config,
        type_defs,
        paths.is_global,
        library_name.as_str(),
    );
    let lua_addon_path = match &lua_addon {
        Some(archive) => {
            def_files.insert(
                "lua language server".to_owned(),
                DefTemplateConfig {
                    extension: ".zip".to_owned(),
                    template: DefTemplateKind::Custom("Lua language server".to_owned()),
                },
            );
            join_path(write_path.as_str(), archive.zip_name.as_str())
        },
        None => String::new(),
    };
    SitePlan {
        missing_exports,
        write_path,
        definitions,
        lua_addon,
        lua_addon_path,
        def_files,
        link_path,
        sidebar,
        sidebar_findings,
        template,
        pages,
        library_name,
    }
}

/// What is told when a description loads although it was written in another
/// version of the schema than `expected`: nothing where the versions are the
/// same.
pub open spec fn version_warning_text(used: Seq<char>, expected: Seq<char>) -> Option<Seq<char>> {
    if used == expected {
        None
    } else {
        Some(
            "Warning:\n"@
                + "Tealr version used to create this json is not equal to the tealr version used to build this version of tealr_doc_gen\n"@
                + "Tealr version used: "@ + used + "\nbuilt version used: "@ + expected
                + "\nPlease update both tealr and tealr_doc_gen so the versions match.\n"@
                + "Schema seems compatible. Trying anyway"@,
        )
    }
}

/// The warning for a description that loaded: none where it was written in
/// the version `expected`; else the lines that say so. The run goes on.
pub fn version_warning(type_defs: &TypeWalker, expected: &str) -> (warning: Option<String>)
    ensures
        match warning {
            Some(text) => version_warning_text(type_defs.version@, expected@) == Some(text@),
            None => version_warning_text(type_defs.version@, expected@) is None,
        },
{
    if type_defs.check_correct_version(expected) {
        return None;
    }
    let mut text = "Warning:\n".to_owned();
    text.append(
        "Tealr version used to create this json is not equal to the tealr version used to build this version of tealr_doc_gen\n",
    );
    text.append("Tealr version used: ");
    text.append(type_defs.version.as_str());
    text.append("\nbuilt version used: ");
    text.append(expected);
    text.append("\nPlease update both tealr and tealr_doc_gen so the versions match.\n");
    text.append("Schema seems compatible. Trying anyway");
    Some(text)
}

/// What the document said of the version it was written in.
#[derive(Clone, Debug, PartialEq, Eq)]
pub enum VersionField {
    /// The document names no version.
    Missing,
    /// The document names a version that is no text.
    NotText,
    /// The version the document names.
    Text(String),
}

/// Why a description did not load.
#[derive(Clone, Debug, PartialEq, Eq)]
pub enum LoadFailure {
    /// The document was written in the version `used`, which this program
    /// does not read.
    VersionIncompatible { used: String },
    /// The document names no version, and has not the shape of a
    /// description.
    NoVersion,
    /// The document is of the version this program reads, or is no fitting
    /// JSON at all: the error of the parser says all there is to say.
    Plain,
}

/// Tells why a description did not load, from what the parser said and what
/// the document says of its version. Only where the parser found the data of
/// the wrong shape is the version looked at: another version than
/// `expected` is then the reason, and a missing version is one too.
pub fn explain_load_failure(
    of_wrong_shape: bool,
    version: VersionField,
    expected: &str,
) -> (failure: LoadFailure)
    ensures
        !of_wrong_shape ==> failure == LoadFailure::Plain,
        of_wrong_shape ==> match version {
            VersionField::Text(used) => if used@ == expected@ {
                failure == LoadFailure::Plain
            } else {
                failure == (LoadFailure::VersionIncompatible { used })
            },
            _ => failure == LoadFailure::NoVersion,
        },
{
    if !of_wrong_shape {
        return LoadFailure::Plain;
    }
    match version {
        VersionField::Text(used) => {
            if same_str(used.as_str(), expected) {
                LoadFailure::Plain
            } else {
                LoadFailure::VersionIncompatible { used }
            }
        },
        _ => LoadFailure::NoVersion,
    }
}

impl LoadFailure {
    /// What is put before the error of the parser; nothing for a plain
    /// failure.
    pub open spec fn context_text(self, expected: Seq<char>) -> Seq<char> {
        match self {
            LoadFailure::VersionIncompatible { used } =>
                "Tealr version used to create the json is not compatible with this version of tealr_doc_gen.\nTealr version used: "@
                + used@ + "\nCompatible tealr_version: "@ + expected + ".\nSchema error:"@,
            LoadFailure::NoVersion =>
                "Json is not the correct schema.\nCould not get the tealr version used to create the json.\nError in schema:"@,
            LoadFailure::Plain => Seq::empty(),
        }
    }

    /// What is put before the error of the parser.
    pub fn context(&self, expected: &str) -> (text: String)
        ensures
            text@ == self.context_text(expected@),
    {
        match self {
            LoadFailure::VersionIncompatible { used } => {
                let mut text =
                    "Tealr version used to create the json is not compatible with this version of tealr_doc_gen.\nTealr version used: ".to_owned();
                text.append(used.as_str());
                text.append("\nCompatible tealr_version: ");
                text.append(expected);
                text.append(".\nSchema error:");
                text
            },
            LoadFailure::NoVersion =>
                "Json is not the correct schema.\nCould not get the tealr version used to create the json.\nError in schema:".to_owned(),
            LoadFailure::Plain => String::new(),
        }
    }
}

} // verus!
