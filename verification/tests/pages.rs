use tealr_doc_gen::config::{
    DefTemplateConfig, DefTemplateKind, DefTemplateRunnerKind, LuaAddon, NamedDefTemplate, Paths,
    TemplateKind, TypeDefFile,
};
use tealr_doc_gen::generation::definition_file::{create_d_file, get_definition_file_name};
use tealr_doc_gen::generation::html::{
    create_link, get_page_name, template_sources, TextSource, TypeOrPage,
};
use tealr_doc_gen::generation::run::{
    explain_load_failure, plan_pages, run_from_walker, version_warning, LoadFailure, VersionField,
};
use tealr_doc_gen::type_generator::{
    merge_inlined, EnumGenerator, ExportedFunction, Field, MemberDoc, RecordGenerator,
    TypeGenerator,
};
use tealr_doc_gen::type_model::{KindOfType, SingleType, Type};
use tealr_doc_gen::type_walker::{ExtraPage, GlobalInstance, TypeWalker};

fn single(name: &str, kind: KindOfType) -> Type {
    Type::Single(SingleType { name: name.to_string(), kind, generics: Vec::new() })
}

fn external(name: &str) -> Type {
    single(name, KindOfType::External)
}

fn number() -> Type {
    single("number", KindOfType::Builtin)
}

fn empty_record(name: &str, inlined: bool) -> RecordGenerator {
    RecordGenerator {
        should_be_inlined: inlined,
        name: name.to_string(),
        ty: external(name),
        fields: Vec::new(),
        static_fields: Vec::new(),
        methods: Vec::new(),
        mut_methods: Vec::new(),
        functions: Vec::new(),
        mut_functions: Vec::new(),
        meta_method: Vec::new(),
        meta_method_mut: Vec::new(),
        meta_function: Vec::new(),
        meta_function_mut: Vec::new(),
        documentation: Vec::new(),
        type_doc: String::new(),
    }
}

fn field(name: &str, ty: Type) -> Field {
    Field { name: name.to_string(), ty }
}

fn function(name: &str) -> ExportedFunction {
    ExportedFunction {
        name: name.to_string(),
        params: Vec::new(),
        return_types: Vec::new(),
        is_meta_method: false,
    }
}

fn record(name: &str, inlined: bool, fields: Vec<Field>) -> TypeGenerator {
    let mut record = empty_record(name, inlined);
    record.fields = fields;
    TypeGenerator::Record(Box::new(record))
}

fn walker(given_types: Vec<TypeGenerator>) -> TypeWalker {
    TypeWalker {
        version: "0.11.0".to_string(),
        given_types,
        global_instances_off: Vec::new(),
        extra_page: Vec::new(),
    }
}

fn paths(name: &str, lua_addon: Option<LuaAddon>) -> Paths {
    Paths {
        json: format!("{}.json", name),
        name: name.to_string(),
        root: "api".to_string(),
        build_dir: "pages".to_string(),
        template_kind: TemplateKind::Builtin,
        def_config: TypeDefFile::default(),
        is_global: true,
        lua_addon,
    }
}

fn vec2_and_transform() -> TypeWalker {
    walker(vec![
        record("Vec2", false, vec![field("x", number()), field("y", number())]),
        record("Transform", false, vec![field("pos", external("Vec2"))]),
    ])
}

#[test]
fn every_type_gets_a_page_and_the_index_gets_one() {
    let graph = vec2_and_transform();
    let pages = plan_pages(&graph, "pages");
    let written: Vec<&str> = pages.iter().map(|page| page.path.as_str()).collect();
    assert_eq!(written, vec!["pages/Vec2.html", "pages/Transform.html", "pages/index.html"]);
    match &pages[0].page {
        TypeOrPage::Type(page) => {
            assert_eq!(page.page_name, "Vec2");
            assert_eq!(page.type_members, &graph.given_types[0]);
            assert_eq!(page.used_by.len(), 1);
            assert_eq!(page.used_by[0].name, "Transform");
            let fields: Vec<&str> =
                page.used_by[0].as_fields.iter().map(|x| x.name.as_str()).collect();
            assert_eq!(fields, vec!["pos"]);
            assert!(page.used_by[0].as_params.is_empty());
            assert!(page.used_by[0].as_return.is_empty());
        }
        other => panic!("the first page is the page of a type, not {:?}", other),
    }
    match &pages[1].page {
        TypeOrPage::Type(page) => {
            assert_eq!(page.page_name, "Transform");
            assert!(page.used_by.is_empty());
        }
        other => panic!("the second page is the page of a type, not {:?}", other),
    }
    match &pages[2].page {
        TypeOrPage::IndexPage(page) => {
            assert_eq!(page.page_name, "index");
            assert_eq!(page.all_types, &graph.given_types);
            assert_eq!(page.type_members, TypeGenerator::Record(Box::new(empty_record("index", true))));
        }
        other => panic!("the last page is the index, not {:?}", other),
    }
    assert!(pages.iter().all(|page| page.finding.is_none()));
}

#[test]
fn inlined_records_are_merged_into_the_index_and_get_no_page() {
    let mut first = empty_record("First", true);
    first.fields = vec![field("a", number())];
    first.static_fields = vec![field("sa", number())];
    first.functions = vec![function("fa")];
    first.documentation = vec![MemberDoc { member: "a".to_string(), text: "of a".to_string() }];
    first.type_doc = "First. ".to_string();
    let mut second = empty_record("Second", true);
    second.fields = vec![field("b", number()), field("c", number())];
    second.methods = vec![function("mb")];
    second.documentation = vec![MemberDoc { member: "b".to_string(), text: "of b".to_string() }];
    second.type_doc = "Second.".to_string();
    let graph = walker(vec![
        TypeGenerator::Record(Box::new(first)),
        record("Page", false, vec![field("own", number())]),
        TypeGenerator::Record(Box::new(second)),
    ]);
    let merged = merge_inlined(&graph.given_types);
    assert!(merged.should_be_inlined);
    assert_eq!(merged.name, "index");
    assert_eq!(merged.ty, external("index"));
    let names: Vec<&str> = merged.fields.iter().map(|x| x.name.as_str()).collect();
    assert_eq!(names, vec!["a", "b", "c"]);
    assert_eq!(merged.static_fields, vec![field("sa", number())]);
    assert_eq!(merged.functions, vec![function("fa")]);
    assert_eq!(merged.methods, vec![function("mb")]);
    assert_eq!(merged.documentation.len(), 2);
    assert_eq!(merged.type_doc, "First. Second.");

    let pages = plan_pages(&graph, "out");
    let written: Vec<&str> = pages.iter().map(|page| page.path.as_str()).collect();
    assert_eq!(written, vec!["out/Page.html", "out/index.html"]);
    match &pages[1].page {
        TypeOrPage::IndexPage(page) => {
            assert_eq!(page.type_members, TypeGenerator::Record(Box::new(merged)));
        }
        other => panic!("the last page is the index, not {:?}", other),
    }
}

#[test]
fn pages_of_free_text_come_last() {
    let mut graph = vec2_and_transform();
    graph.extra_page = vec![
        ExtraPage { name: "Getting started".to_string(), content: "# Hello".to_string() },
        ExtraPage { name: "a/b".to_string(), content: String::new() },
    ];
    let pages = plan_pages(&graph, "pages");
    assert_eq!(pages.len(), 5);
    assert_eq!(pages[3].path, "pages/Getting started.html");
    assert_eq!(pages[4].path, "pages/ab.html");
    match &pages[3].page {
        TypeOrPage::CustomPage(page) => {
            assert_eq!(page.name, "Getting started");
            assert_eq!(page.markdown_content, "# Hello");
        }
        other => panic!("a page of free text, not {:?}", other),
    }
}

#[test]
fn a_dot_in_a_name_is_kept_in_the_file_name() {
    let mut graph = walker(vec![
        record("std.io", false, Vec::new()),
        record("std.fs", false, vec![field("reader", external("std.io"))]),
    ]);
    graph.extra_page = vec![ExtraPage { name: "v1.2".to_string(), content: String::new() }];
    let pages = plan_pages(&graph, "pages");
    let written: Vec<&str> = pages.iter().map(|page| page.path.as_str()).collect();
    assert_eq!(
        written,
        vec!["pages/std.io.html", "pages/std.fs.html", "pages/index.html", "pages/v1.2.html"]
    );
    let plan = run_from_walker(paths("lib", None), &graph);
    let shown: Vec<&str> = plan.sidebar.iter().map(|entry| entry.link_to.as_str()).collect();
    assert_eq!(shown, vec!["/api/std.io.html", "/api/std.fs.html"]);
}

#[test]
fn the_page_of_an_inlined_record_is_the_index() {
    assert_eq!(get_page_name(&record("Lib", true, Vec::new())), "index");
    assert_eq!(get_page_name(&record("Vec2", false, Vec::new())), "Vec2");
    let color = TypeGenerator::Enum(EnumGenerator {
        name: "Color".to_string(),
        ty: external("Color"),
        variants: Vec::new(),
        type_doc: String::new(),
    });
    assert_eq!(get_page_name(&color), "Color");
}

#[test]
fn a_link_is_made_from_a_name_and_keeps_the_fragment() {
    let types = vec![record("Lib", true, Vec::new()), record("Vec2", false, Vec::new())];
    assert_eq!(create_link("Vec2", Some(&types), "/api"), "/api/Vec2.html");
    assert_eq!(create_link("Vec2#len", Some(&types), "/api"), "/api/Vec2.html#len");
    assert_eq!(create_link("Vec2#a#b", Some(&types), "/api"), "/api/Vec2.html#a#b");
    assert_eq!(create_link("Lib#start", Some(&types), "/api"), "/api/index.html#start");
    assert_eq!(create_link("Lib", Some(&types), "/api"), "/api/index.html");
    assert_eq!(create_link("Lib#start", None, "/api"), "/api/Lib.html#start");
    assert_eq!(create_link("index#type_to_string", Some(&types), "/api"), "/api/index.html#type_to_string");
    assert_eq!(create_link("#top", Some(&types), "/api"), "/api/.html#top");
    assert_eq!(create_link("Unknown", Some(&types), "api"), "api/Unknown.html");
}

#[test]
fn templates_that_are_not_named_are_built_in() {
    let built_in = template_sources(&TemplateKind::Builtin);
    assert_eq!(built_in.template, TextSource::Builtin);
    assert_eq!(built_in.runner, TextSource::Builtin);
    let from_lua = template_sources(&TemplateKind::FromLua("run.lua".to_string()));
    assert_eq!(from_lua.template, TextSource::Builtin);
    assert_eq!(from_lua.runner, TextSource::File("run.lua".to_string()));
    let from_template = template_sources(&TemplateKind::FromTemplate("page.etlua".to_string()));
    assert_eq!(from_template.template, TextSource::File("page.etlua".to_string()));
    assert_eq!(from_template.runner, TextSource::Builtin);
}

#[test]
fn definition_files_are_called_after_the_library() {
    assert_eq!(get_definition_file_name("lib", ".d.tl"), "lib.d.tl");
    assert_eq!(get_definition_file_name("lib", "d.tl"), "lib.d.tl");
    assert_eq!(get_definition_file_name("lib", "..zip"), "lib..zip");
    assert_eq!(get_definition_file_name("lib", ""), "lib.");
    assert_eq!(get_definition_file_name("lib", "."), "lib.");
}

#[test]
fn one_definition_file_is_made_for_each_template() {
    let mut config = TypeDefFile::default();
    config.runner = DefTemplateRunnerKind::Custom("runner.lua".to_string());
    config.templates.push(NamedDefTemplate {
        name: "stubs".to_string(),
        config: DefTemplateConfig {
            extension: "lua".to_string(),
            template: DefTemplateKind::Custom("stubs.etlua".to_string()),
        },
    });
    let plan = create_d_file(&config, "pages/api", "lib");
    assert_eq!(plan.folder, "pages/api/definitions");
    assert_eq!(plan.runner, TextSource::File("runner.lua".to_string()));
    assert_eq!(plan.files.len(), 2);
    assert_eq!(plan.files[0].template, TextSource::Builtin);
    assert_eq!(plan.files[0].path, "pages/api/definitions/lib.d.tl");
    assert_eq!(plan.files[1].template, TextSource::File("stubs.etlua".to_string()));
    assert_eq!(plan.files[1].path, "pages/api/definitions/lib.lua");
}

#[test]
fn a_run_without_an_addon_writes_pages_and_definitions() {
    let mut graph = vec2_and_transform();
    graph.given_types.push(record("Broken", false, vec![field("gone", external("Missing"))]));
    graph.global_instances_off.push(GlobalInstance {
        name: "origin".to_string(),
        ty: external("Vec2"),
        doc: String::new(),
    });
    let plan = run_from_walker(paths("lib", None), &graph);
    assert_eq!(plan.write_path, "pages/api");
    assert_eq!(plan.link_path, "/api");
    assert_eq!(plan.library_name, "lib");
    assert_eq!(plan.missing_exports.len(), 1);
    assert_eq!(plan.missing_exports[0].message(), "Missing type from export: Missing. Used by: Broken.gone");
    assert_eq!(plan.definitions.folder, "pages/api/definitions");
    assert_eq!(plan.definitions.files.len(), 1);
    assert_eq!(plan.definitions.files[0].path, "pages/api/definitions/lib.d.tl");
    assert_eq!(plan.lua_addon, None);
    assert_eq!(plan.lua_addon_path, "");
    assert_eq!(plan.def_files, TypeDefFile::default());
    let shown: Vec<&str> = plan.sidebar.iter().map(|entry| entry.link_to.as_str()).collect();
    assert_eq!(shown, vec!["/api/Vec2.html", "/api/Transform.html", "/api/Broken.html"]);
    assert!(plan.sidebar_findings.is_empty());
    let written: Vec<&str> = plan.pages.iter().map(|page| page.path.as_str()).collect();
    assert_eq!(
        written,
        vec![
            "pages/api/Vec2.html",
            "pages/api/Transform.html",
            "pages/api/Broken.html",
            "pages/api/index.html",
        ]
    );
    match &plan.pages[0].page {
        TypeOrPage::Type(page) => {
            let users: Vec<&str> = page.used_by.iter().map(|user| user.name.as_str()).collect();
            assert_eq!(users, vec!["Transform", "global"]);
        }
        other => panic!("the page of a type, not {:?}", other),
    }
}

#[test]
fn a_run_with_an_addon_adds_it_to_the_definition_files() {
    let graph = vec2_and_transform();
    let addon = LuaAddon::Create { words: Vec::new(), files: Vec::new(), settings: Vec::new() };
    let plan = run_from_walker(paths("lib", Some(addon)), &graph);
    let archive = plan.lua_addon.as_ref().expect("an addon is asked for");
    assert_eq!(archive.zip_name, "lib.zip");
    assert_eq!(plan.lua_addon_path, "pages/api/lib.zip");
    assert!(archive.library.starts_with("---@meta\n\nlib = {}\n---@class Vec2\n"));
    assert_eq!(plan.def_files.templates.len(), 2);
    assert_eq!(plan.def_files.templates[0].name, "teal");
    assert_eq!(plan.def_files.templates[1].name, "lua language server");
    assert_eq!(plan.def_files.templates[1].config.extension, ".zip");
    assert_eq!(
        plan.def_files.templates[1].config.template,
        DefTemplateKind::Custom("Lua language server".to_string())
    );
    assert_eq!(plan.definitions.files.len(), 1);
    let refused = run_from_walker(paths("lib", Some(LuaAddon::False)), &graph);
    assert_eq!(refused.lua_addon, None);
    assert_eq!(refused.def_files.templates.len(), 1);
}

#[test]
fn a_description_of_another_version_loads_with_a_warning() {
    let graph = vec2_and_transform();
    assert_eq!(version_warning(&graph, "0.11.0"), None);
    let warning = version_warning(&graph, "0.12.0").expect("the versions differ");
    assert_eq!(
        warning,
        "Warning:\n\
         Tealr version used to create this json is not equal to the tealr version used to build this version of tealr_doc_gen\n\
         Tealr version used: 0.11.0\n\
         built version used: 0.12.0\n\
         Please update both tealr and tealr_doc_gen so the versions match.\n\
         Schema seems compatible. Trying anyway"
    );
}

#[test]
fn a_description_of_the_wrong_shape_fails_on_its_version() {
    let old = VersionField::Text("0.9.0".to_string());
    let failure = explain_load_failure(true, old, "0.11.0");
    assert_eq!(failure, LoadFailure::VersionIncompatible { used: "0.9.0".to_string() });
    assert_eq!(
        failure.context("0.11.0"),
        "Tealr version used to create the json is not compatible with this version of tealr_doc_gen.\n\
         Tealr version used: 0.9.0\n\
         Compatible tealr_version: 0.11.0.\n\
         Schema error:"
    );
    let same = VersionField::Text("0.11.0".to_string());
    assert_eq!(explain_load_failure(true, same, "0.11.0"), LoadFailure::Plain);
    assert_eq!(explain_load_failure(true, VersionField::Missing, "0.11.0"), LoadFailure::NoVersion);
    assert_eq!(explain_load_failure(true, VersionField::NotText, "0.11.0"), LoadFailure::NoVersion);
    assert_eq!(
        LoadFailure::NoVersion.context("0.11.0"),
        "Json is not the correct schema.\n\
         Could not get the tealr version used to create the json.\n\
         Error in schema:"
    );
    let old = VersionField::Text("0.9.0".to_string());
    assert_eq!(explain_load_failure(false, old, "0.11.0"), LoadFailure::Plain);
    assert_eq!(explain_load_failure(false, VersionField::Missing, "0.11.0"), LoadFailure::Plain);
    assert_eq!(LoadFailure::Plain.context("0.11.0"), "");
}
