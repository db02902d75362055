//! What a run is told: where the description of the library lies, where the
//! pages go, and which templates make them.

use crate::text::{concat_str, same_str};
use crate::type_model::views;
use vstd::prelude::*;

verus! {

/// `serde_json::Value`, which the library carries from the configuration to
/// the manifest of the addon without looking into it.
#[verifier::external_type_specification]
#[verifier::external_body]
pub struct ExJsonValue(serde_json::Value);

/// Where the template of the pages comes from.
#[derive(Clone, Debug, PartialEq, Eq)]
pub enum TemplateKind {
    /// The template and the runner that are built in.
    Builtin,
    /// The built-in template, run by the Lua file at this path.
    FromLua(String),
    /// The template at this path, run by the built-in runner.
    FromTemplate(String),
}

impl Default for TemplateKind {
    fn default() -> (kind: Self)
        ensures
            kind == TemplateKind::Builtin,
    {
        TemplateKind::Builtin
    }
}

/// What runs the templates of the definition files.
#[derive(Clone, Debug, PartialEq, Eq)]
pub enum DefTemplateRunnerKind {
    Builtin,
    /// The Lua file at this path.
    Custom(String),
}

/// The template of a definition file.
#[derive(Clone, Debug, PartialEq, Eq, Hash)]
pub enum DefTemplateKind {
    Teal,
    /// The template at this path.
    Custom(String),
}

/// What a [`DefTemplateKind`] stands for.
pub enum DefTemplateKindView {
    Teal,
    Custom(Seq<char>),
}

impl View for DefTemplateKind {
    type V = DefTemplateKindView;

    open spec fn view(&self) -> DefTemplateKindView {
        match self {
            DefTemplateKind::Teal => DefTemplateKindView::Teal,
            DefTemplateKind::Custom(path) => DefTemplateKindView::Custom(path@),
        }
    }
}

/// One kind of definition file: its extension and the template that makes it.
#[derive(Clone, Debug, PartialEq, Eq, Hash)]
pub struct DefTemplateConfig {
    pub extension: String,
    pub template: DefTemplateKind,
}

/// What a [`DefTemplateConfig`] stands for.
pub struct DefTemplateConfigView {
    pub extension: Seq<char>,
    pub template: DefTemplateKindView,
}

impl View for DefTemplateConfig {
    type V = DefTemplateConfigView;

    open spec fn view(&self) -> DefTemplateConfigView {
        DefTemplateConfigView { extension: self.extension@, template: self.template@ }
    }
}

/// A kind of definition file under the name it is configured by.
#[derive(Clone, Debug, PartialEq, Eq)]
pub struct NamedDefTemplate {
    pub name: String,
    pub config: DefTemplateConfig,
}

/// What a [`NamedDefTemplate`] stands for.
pub struct NamedDefTemplateView {
    pub name: Seq<char>,
    pub config: DefTemplateConfigView,
}

impl View for NamedDefTemplate {
    type V = NamedDefTemplateView;

    open spec fn view(&self) -> NamedDefTemplateView {
        NamedDefTemplateView { name: self.name@, config: self.config@ }
    }
}

/// The definition files of a run: what runs their templates, and the kinds
/// of file by name. No name stands twice.
#[derive(Clone, Debug, PartialEq, Eq)]
pub struct TypeDefFile {
    pub runner: DefTemplateRunnerKind,
    pub templates: Vec<NamedDefTemplate>,
}

/// Whether no name stands twice in `templates`.
pub open spec fn distinct_names(templates: Seq<NamedDefTemplateView>) -> bool {
    forall|i: int, j: int|
        0 <= i < j < templates.len() ==> (#[trigger] templates[i]).name != (
        #[trigger] templates[j]).name
}

/// What `templates` holds under `name`.
pub open spec fn template_named(templates: Seq<NamedDefTemplateView>, name: Seq<char>) -> Option<
    DefTemplateConfigView,
> {
    if exists|i: int| 0 <= i < templates.len() && (#[trigger] templates[i]).name == name {
        let i = choose|i: int| 0 <= i < templates.len() && (#[trigger] templates[i]).name == name;
        Some(templates[i].config)
    } else {
        None
    }
}

impl TypeDefFile {
    /// Whether no name stands twice among the templates.
    pub open spec fn well_formed(self) -> bool {
        distinct_names(views(self.templates@))
    }

    /// Whether no name stands twice among the templates.
    pub fn is_well_formed(&self) -> (r: bool)
        ensures
            r == self.well_formed(),
    {
        let ghost all = views(self.templates@);
        let mut j: usize = 0;
        while j < self.templates.len()
            invariant
                j <= self.templates.len(),
                all == views(self.templates@),
                forall|a: int, b: int|
                    0 <= a < b < j ==> (#[trigger] all[a]).name != (#[trigger] all[b]).name,
            decreases self.templates.len() - j,
        {
            let mut i: usize = 0;
            while i < j
                invariant
                    i <= j < self.templates.len(),
                    all == views(self.templates@),
                    forall|a: int| 0 <= a < i ==> (#[trigger] all[a]).name != all[j as int].name,
                decreases j - i,
            {
                if same_str(self.templates[i].name.as_str(), self.templates[j].name.as_str()) {
                    assert(all[i as int].name == all[j as int].name);
                    return false;
                }
                i += 1;
            }
            j += 1;
        }
        true
    }

    /// Puts `config` under `name`, in the place of what stood under that
    /// name before; what stands under other names stays.
    pub fn insert(&mut self, name: String, config: DefTemplateConfig)
        requires
            old(self).well_formed(),
        ensures
            final(self).well_formed(),
            final(self).runner == old(self).runner,
            template_named(views(final(self).templates@), name@) == Some(config@),
            forall|other: Seq<char>|
                other != name@ ==> template_named(views(final(self).templates@), other)
                    == template_named(views(old(self).templates@), other),
            final(self).templates@.len() == old(self).templates@.len() + if template_named(
                views(old(self).templates@),
                name@,
            ) is Some {
                0int
            } else {
                1int
            },
    {
        let ghost before = views(self.templates@);
        let mut i: usize = 0;
        while i < self.templates.len()
            invariant
                i <= self.templates.len(),
                before == views(self.templates@),
                distinct_names(before),
                *self == *old(self),
                forall|j: int| 0 <= j < i ==> (#[trigger] before[j]).name != name@,
            decreases self.templates.len() - i,
        {
            if same_str(self.templates[i].name.as_str(), name.as_str()) {
                assert(before[i as int].name == name@);
                self.templates[i] = NamedDefTemplate { name, config };
                let ghost after = views(self.templates@);
                assert(after =~= before.update(
                    i as int,
                    NamedDefTemplateView { name: name@, config: config@ },
                ));
                assert forall|a: int, b: int| 0 <= a < b < after.len() implies (
                #[trigger] after[a]).name != (#[trigger] after[b]).name by {
                }
                proof {
                    lemma_template_at(after, i as int);
                    assert forall|other: Seq<char>| other != name@ implies template_named(
                        after,
                        other,
                    ) == template_named(before, other) by {
                        lemma_same_names_same_lookup(before, after, i as int, other);
                    }
                }
                return ;
            }
            i += 1;
        }
        self.templates.push(NamedDefTemplate { name, config });
        let ghost after = views(self.templates@);
        assert(after =~= before.push(NamedDefTemplateView { name: name@, config: config@ }));
        proof {
            lemma_template_at(after, before.len() as int);
            assert forall|other: Seq<char>| other != name@ implies template_named(after, other)
                == template_named(before, other) by {
                lemma_pushed_name_keeps_lookup(before, after, other);
            }
        }
    }
}

proof fn lemma_template_at(templates: Seq<NamedDefTemplateView>, at: int)
    requires
        distinct_names(templates),
        0 <= at < templates.len(),
    ensures
        template_named(templates, templates[at].name) == Some(templates[at].config),
{
    let name = templates[at].name;
    let i = choose|i: int| 0 <= i < templates.len() && (#[trigger] templates[i]).name == name;
    if i < at {
        assert(templates[i].name != templates[at].name);
    } else if at < i {
        assert(templates[at].name != templates[i].name);
    }
}

proof fn lemma_same_names_same_lookup(
    before: Seq<NamedDefTemplateView>,
    after: Seq<NamedDefTemplateView>,
    at: int,
    other: Seq<char>,
)
    requires
        distinct_names(before),
        distinct_names(after),
        0 <= at < before.len(),
        after.len() == before.len(),
        forall|i: int| 0 <= i < before.len() && i != at ==> before[i] == after[i],
        before[at].name == after[at].name,
        other != before[at].name,
    ensures
        template_named(after, other) == template_named(before, other),
{
    if exists|i: int| 0 <= i < before.len() && (#[trigger] before[i]).name == other {
        let i = choose|i: int| 0 <= i < before.len() && (#[trigger] before[i]).name == other;
        lemma_template_at(before, i);
        lemma_template_at(after, i);
    } else if exists|i: int| 0 <= i < after.len() && (#[trigger] after[i]).name == other {
        let i = choose|i: int| 0 <= i < after.len() && (#[trigger] after[i]).name == other;
    }
}

proof fn lemma_pushed_name_keeps_lookup(
    before: Seq<NamedDefTemplateView>,
    after: Seq<NamedDefTemplateView>,
    other: Seq<char>,
)
    requires
        distinct_names(before),
        distinct_names(after),
        after.len() == before.len() + 1,
        forall|i: int| 0 <= i < before.len() ==> before[i] == after[i],
        other != after[before.len() as int].name,
    ensures
        template_named(after, other) == template_named(before, other),
{
    if exists|i: int| 0 <= i < before.len() && (#[trigger] before[i]).name == other {
        let i = choose|i: int| 0 <= i < before.len() && (#[trigger] before[i]).name == other;
        lemma_template_at(before, i);
        lemma_template_at(after, i);
    } else if exists|i: int| 0 <= i < after.len() && (#[trigger] after[i]).name == other {
        let i = choose|i: int| 0 <= i < after.len() && (#[trigger] after[i]).name == other;
    }
}

/// The definition files that are made where nothing else is configured: one
/// kind, `teal`, with the extension `.d.tl` and the Teal template.
pub open spec fn default_templates() -> Seq<NamedDefTemplateView> {
    seq![
        NamedDefTemplateView {
            name: "teal"@,
            config: DefTemplateConfigView {
                extension: ".d.tl"@,
                template: DefTemplateKindView::Teal,
            },
        },
    ]
}

impl Default for TypeDefFile {
    /// The built-in runner, and one kind of file: `teal`, with the extension
    /// `.d.tl` and the Teal template.
    fn default() -> (files: Self)
        ensures
            files.well_formed(),
            files.runner == DefTemplateRunnerKind::Builtin,
            views(files.templates@) == default_templates(),
    {
        let mut templates: Vec<NamedDefTemplate> = Vec::new();
        templates.push(
            NamedDefTemplate {
                name: "teal".to_owned(),
                config: DefTemplateConfig {
                    extension: ".d.tl".to_owned(),
                    template: DefTemplateKind::Teal,
                },
            },
        );
        let files = TypeDefFile { runner: DefTemplateRunnerKind::Builtin, templates };
        files
    }
}

/// Whether an addon for the Lua language server is made, and what goes into
/// its manifest.
#[derive(Clone, Debug, PartialEq, Eq)]
pub enum LuaAddon {
    False,
    Create {
        words: Vec<String>,
        files: Vec<String>,
        /// The settings by name. Where a name stands twice the later entry
        /// counts.
        settings: Vec<(String, serde_json::Value)>,
    },
}

/// The configuration file of a run.
#[derive(Clone, Debug, PartialEq, Eq)]
pub struct Config {
    pub doc_template: TemplateKind,
    pub page_root: String,
    pub store_in: String,
    pub name: String,
    pub type_def_files: TypeDefFile,
    pub lua_addon: Option<LuaAddon>,
    pub is_global: bool,
}

impl Default for Config {
    /// The configuration that a new project starts from: the built-in
    /// templates, pages under `pages`, a library called `Your_API` that is a
    /// global, and an addon with an empty manifest.
    fn default() -> (config: Self)
        ensures
            config.doc_template == TemplateKind::Builtin,
            config.page_root@ == Seq::<char>::empty(),
            config.store_in@ == "pages"@,
            config.name@ == "Your_API"@,
            config.type_def_files.well_formed(),
            config.type_def_files.runner == DefTemplateRunnerKind::Builtin,
            views(config.type_def_files.templates@) == default_templates(),
            config.is_global,
            config.lua_addon matches Some(LuaAddon::Create { words, files, settings })
                && words@.len() == 0 && files@.len() == 0 && settings@.len() == 0,
    {
        Config {
            doc_template: TemplateKind::Builtin,
            page_root: String::new(),
            store_in: "pages".to_owned(),
            name: "Your_API".to_owned(),
            type_def_files: TypeDefFile::default(),
            lua_addon: Some(
                LuaAddon::Create { words: Vec::new(), files: Vec::new(), settings: Vec::new() },
            ),
            is_global: true,
        }
    }
}

/// What a run of the generator works from.
#[derive(Clone, Debug, PartialEq, Eq)]
pub struct Paths {
    /// The file that holds the description of the library.
    pub json: String,
    /// The name of the library.
    pub name: String,
    /// Where the pages stand below the root of the site.
    pub root: String,
    /// The directory the site is built in.
    pub build_dir: String,
    pub template_kind: TemplateKind,
    pub def_config: TypeDefFile,
    pub is_global: bool,
    pub lua_addon: Option<LuaAddon>,
}

impl Paths {
    /// What a run works from under `config`: the description of the library
    /// lies in the file called after the library, with the extension `json`.
    pub fn from_config(config: Config) -> (paths: Self)
        ensures
            paths.json@ == config.name@ + ".json"@,
            paths.name == config.name,
            paths.root == config.page_root,
            paths.build_dir == config.store_in,
            paths.template_kind == config.doc_template,
            paths.def_config == config.type_def_files,
            paths.is_global == config.is_global,
            paths.lua_addon == config.lua_addon,
    {
        Paths {
            json: concat_str(config.name.as_str(), ".json"),
            name: config.name,
            root: config.page_root,
            build_dir: config.store_in,
            template_kind: config.doc_template,
            def_config: config.type_def_files,
            is_global: config.is_global,
            lua_addon: config.lua_addon,
        }
    }
}

impl Paths {
    /// What the run works from that documents what a template is offered:
    /// a global library called after this program, at the root of the site,
    /// with the built-in templates and an addon with an empty manifest.
    pub fn for_self_documentation(build_dir: String) -> (paths: Self)
        ensures
            paths.json@ == "{}"@,
            paths.name@ == "tealr_doc_gen"@,
            paths.root@ == Seq::<char>::empty(),
            paths.build_dir == build_dir,
            paths.template_kind == TemplateKind::Builtin,
            paths.def_config.well_formed(),
            paths.def_config.runner == DefTemplateRunnerKind::Builtin,
            views(paths.def_config.templates@) == default_templates(),
            paths.is_global,
            paths.lua_addon matches Some(LuaAddon::Create { words, files, settings })
                && words@.len() == 0 && files@.len() == 0 && settings@.len() == 0,
    {
        Paths {
            json: "{}".to_owned(),
            name: "tealr_doc_gen".to_owned(),
            root: String::new(),
            build_dir,
            template_kind: TemplateKind::Builtin,
            def_config: TypeDefFile::default(),
            is_global: true,
            lua_addon: Some(
                LuaAddon::Create { words: Vec::new(), files: Vec::new(), settings: Vec::new() },
            ),
        }
    }
}

/// What was asked for after `gen-self` on the command line.
#[derive(Clone, Copy, Debug, PartialEq, Eq, Structural)]
pub struct GenSelfArguments {
    pub docs_documentation_template: bool,
    pub docs_definition_template: bool,
    pub config: bool,
    pub doc_template: bool,
    pub definition_template: bool,
    pub lua_runner: bool,
    pub print: bool,
}

/// What was asked for on the command line.
#[derive(Clone, Copy, Debug, PartialEq, Eq, Structural)]
pub struct Arguments {
    pub credits: bool,
    pub run: bool,
    pub gen_self: Option<GenSelfArguments>,
}

/// A file that the program hands out to start a project from.
#[derive(Clone, Copy, Debug, PartialEq, Eq, Structural)]
pub enum StarterFile {
    /// A new configuration.
    Config,
    /// The built-in template of the pages.
    DocTemplate,
    /// The built-in template of the Teal definition file.
    DefinitionTemplate,
    /// The built-in runner of the templates.
    LuaRunner,
}

impl StarterFile {
    /// Where the file is written to.
    pub open spec fn location_text(self) -> Seq<char> {
        match self {
            StarterFile::Config => "./tealr_doc_gen_config.json"@,
            StarterFile::DocTemplate => "./template.etlua"@,
            StarterFile::DefinitionTemplate => "./teal_definition_template.etlua"@,
            StarterFile::LuaRunner => "./run_template.lua"@,
        }
    }

    /// Where the file is written to.
    pub fn location(self) -> (path: &'static str)
        ensures
            path@ == self.location_text(),
    {
        match self {
            StarterFile::Config => "./tealr_doc_gen_config.json",
            StarterFile::DocTemplate => "./template.etlua",
            StarterFile::DefinitionTemplate => "./teal_definition_template.etlua",
            StarterFile::LuaRunner => "./run_template.lua",
        }
    }
}

/// What the program is to do.
#[derive(Clone, Copy, Debug, PartialEq, Eq, Structural)]
pub enum Request {
    /// Show who worked on the program.
    Credits,
    /// Generate the documentation that the configuration describes.
    GenerateDocs,
    /// Document what the template of the pages is offered.
    SelfDocTemplate,
    /// Document what the template of a definition file is offered.
    SelfDefTemplate,
    /// Hand out a starter file: print it, or write it to its location.
    GenFile { file: StarterFile, print: bool },
    /// `gen-self` was asked for without saying what to generate.
    MissingArgument,
    Nothing,
}

/// The starter file that `arguments` ask for: the first that is asked for
/// counts, the configuration before the template of the pages, that before
/// the template of the definition file, and that before the runner.
pub open spec fn starter_file(arguments: GenSelfArguments) -> Option<StarterFile> {
    if arguments.config {
        Some(StarterFile::Config)
    } else if arguments.doc_template {
        Some(StarterFile::DocTemplate)
    } else if arguments.definition_template {
        Some(StarterFile::DefinitionTemplate)
    } else if arguments.lua_runner {
        Some(StarterFile::LuaRunner)
    } else {
        None
    }
}

/// What `arguments` ask the program to do. The credits come before
/// everything; a run comes before `gen-self`; and after `gen-self`, the
/// documentation of what a template is offered comes before a starter file.
pub open spec fn request_of(arguments: Arguments) -> Request {
    if arguments.credits {
        Request::Credits
    } else if arguments.run {
        Request::GenerateDocs
    } else {
        match arguments.gen_self {
            Some(gen_self) => if gen_self.docs_documentation_template {
                Request::SelfDocTemplate
            } else if gen_self.docs_definition_template {
                Request::SelfDefTemplate
            } else {
                match starter_file(gen_self) {
                    Some(file) => Request::GenFile { file, print: gen_self.print },
                    None => Request::MissingArgument,
                }
            },
            None => Request::Nothing,
        }
    }
}

/// What `arguments` ask the program to do, as [`request_of`] says.
pub fn get_request(arguments: &Arguments) -> (request: Request)
    ensures
        request == request_of(*arguments),
{
    if arguments.credits {
        return Request::Credits;
    }
    if arguments.run {
        return Request::GenerateDocs;
    }
    match arguments.gen_self {
        Some(gen_self) => {
            if gen_self.docs_documentation_template {
                Request::SelfDocTemplate
            } else if gen_self.docs_definition_template {
                Request::SelfDefTemplate
            } else {
                let file = if gen_self.config {
                    StarterFile::Config
                } else if gen_self.doc_template {
                    StarterFile::DocTemplate
                } else if gen_self.definition_template {
                    StarterFile::DefinitionTemplate
                } else if gen_self.lua_runner {
                    StarterFile::LuaRunner
                } else {
                    return Request::MissingArgument;
                };
                Request::GenFile { file, print: gen_self.print }
            }
        },
        None => Request::Nothing,
    }
}

} // verus!
