use tealr_doc_gen::config::{
    Config, DefTemplateConfig, DefTemplateKind, DefTemplateRunnerKind, LuaAddon, NamedDefTemplate,
    Paths, TemplateKind, TypeDefFile,
};

fn custom(extension: &str, template: &str) -> DefTemplateConfig {
    DefTemplateConfig {
        extension: extension.to_string(),
        template: DefTemplateKind::Custom(template.to_string()),
    }
}

#[test]
fn the_built_in_template_is_the_default() {
    assert_eq!(TemplateKind::default(), TemplateKind::Builtin);
}

#[test]
fn teal_definitions_are_made_by_default() {
    let files = TypeDefFile::default();
    assert_eq!(files.runner, DefTemplateRunnerKind::Builtin);
    assert_eq!(
        files.templates,
        vec![NamedDefTemplate {
            name: "teal".to_string(),
            config: DefTemplateConfig {
                extension: ".d.tl".to_string(),
                template: DefTemplateKind::Teal,
            },
        }]
    );
    assert!(files.is_well_formed());
}

#[test]
fn a_new_configuration_asks_for_an_addon() {
    let config = Config::default();
    assert_eq!(config.doc_template, TemplateKind::Builtin);
    assert_eq!(config.page_root, "");
    assert_eq!(config.store_in, "pages");
    assert_eq!(config.name, "Your_API");
    assert_eq!(config.type_def_files, TypeDefFile::default());
    assert!(config.is_global);
    assert_eq!(
        config.lua_addon,
        Some(LuaAddon::Create { words: Vec::new(), files: Vec::new(), settings: Vec::new() })
    );
}

#[test]
fn a_run_reads_the_description_called_after_the_library() {
    let mut config = Config::default();
    config.name = "lib".to_string();
    config.page_root = "api".to_string();
    config.is_global = false;
    config.lua_addon = None;
    config.doc_template = TemplateKind::FromLua("run.lua".to_string());
    let paths = Paths::from_config(config);
    assert_eq!(paths.json, "lib.json");
    assert_eq!(paths.name, "lib");
    assert_eq!(paths.root, "api");
    assert_eq!(paths.build_dir, "pages");
    assert_eq!(paths.template_kind, TemplateKind::FromLua("run.lua".to_string()));
    assert_eq!(paths.def_config, TypeDefFile::default());
    assert!(!paths.is_global);
    assert_eq!(paths.lua_addon, None);
}

#[test]
fn a_template_is_put_under_a_new_name_or_in_the_place_of_the_old_one() {
    let mut files = TypeDefFile::default();
    files.insert("stubs".to_string(), custom("lua", "stubs.etlua"));
    assert_eq!(files.templates.len(), 2);
    assert_eq!(files.templates[1].name, "stubs");
    files.insert("teal".to_string(), custom("tl", "other.etlua"));
    assert_eq!(files.templates.len(), 2);
    assert_eq!(files.templates[0].name, "teal");
    assert_eq!(files.templates[0].config, custom("tl", "other.etlua"));
    assert_eq!(files.templates[1].config, custom("lua", "stubs.etlua"));
    assert!(files.is_well_formed());
}

#[test]
fn a_name_that_stands_twice_is_told() {
    let mut files = TypeDefFile::default();
    files.templates.push(NamedDefTemplate { name: "other".to_string(), config: custom("a", "b") });
    assert!(files.is_well_formed());
    files.templates.push(NamedDefTemplate { name: "teal".to_string(), config: custom("a", "b") });
    assert!(!files.is_well_formed());
    files.templates.clear();
    assert!(files.is_well_formed());
}

use tealr_doc_gen::config::{get_request, Arguments, GenSelfArguments, Request, StarterFile};

fn gen_self() -> GenSelfArguments {
    GenSelfArguments {
        docs_documentation_template: false,
        docs_definition_template: false,
        config: false,
        doc_template: false,
        definition_template: false,
        lua_runner: false,
        print: false,
    }
}

fn arguments(gen_self: Option<GenSelfArguments>) -> Arguments {
    Arguments { credits: false, run: false, gen_self }
}

#[test]
fn credits_come_before_everything() {
    let all = GenSelfArguments { config: true, print: true, ..gen_self() };
    let asked = Arguments { credits: true, run: true, gen_self: Some(all) };
    assert_eq!(get_request(&asked), Request::Credits);
}

#[test]
fn a_run_comes_before_gen_self() {
    let asked = Arguments { credits: false, run: true, gen_self: Some(gen_self()) };
    assert_eq!(get_request(&asked), Request::GenerateDocs);
}

#[test]
fn nothing_is_done_where_nothing_is_asked() {
    assert_eq!(get_request(&arguments(None)), Request::Nothing);
}

#[test]
fn gen_self_without_a_choice_is_an_error() {
    assert_eq!(get_request(&arguments(Some(gen_self()))), Request::MissingArgument);
    let only_print = GenSelfArguments { print: true, ..gen_self() };
    assert_eq!(get_request(&arguments(Some(only_print))), Request::MissingArgument);
}

#[test]
fn the_documentation_of_the_templates_comes_before_starter_files() {
    let both = GenSelfArguments {
        docs_documentation_template: true,
        docs_definition_template: true,
        config: true,
        ..gen_self()
    };
    assert_eq!(get_request(&arguments(Some(both))), Request::SelfDocTemplate);
    let definition = GenSelfArguments { docs_definition_template: true, config: true, ..gen_self() };
    assert_eq!(get_request(&arguments(Some(definition))), Request::SelfDefTemplate);
}

#[test]
fn the_first_starter_file_that_is_asked_for_is_handed_out() {
    let all = GenSelfArguments {
        config: true,
        doc_template: true,
        definition_template: true,
        lua_runner: true,
        ..gen_self()
    };
    let request = |asked: GenSelfArguments| get_request(&arguments(Some(asked)));
    assert_eq!(request(all), Request::GenFile { file: StarterFile::Config, print: false });
    assert_eq!(
        request(GenSelfArguments { config: false, print: true, ..all }),
        Request::GenFile { file: StarterFile::DocTemplate, print: true }
    );
    assert_eq!(
        request(GenSelfArguments { config: false, doc_template: false, ..all }),
        Request::GenFile { file: StarterFile::DefinitionTemplate, print: false }
    );
    assert_eq!(
        request(GenSelfArguments { lua_runner: true, ..gen_self() }),
        Request::GenFile { file: StarterFile::LuaRunner, print: false }
    );
}

#[test]
fn starter_files_go_to_the_working_directory() {
    assert_eq!(StarterFile::Config.location(), "./tealr_doc_gen_config.json");
    assert_eq!(StarterFile::DocTemplate.location(), "./template.etlua");
    assert_eq!(StarterFile::DefinitionTemplate.location(), "./teal_definition_template.etlua");
    assert_eq!(StarterFile::LuaRunner.location(), "./run_template.lua");
}

#[test]
fn the_program_documents_itself_as_a_global_library() {
    let paths = Paths::for_self_documentation("out".to_string());
    assert_eq!(paths.json, "{}");
    assert_eq!(paths.name, "tealr_doc_gen");
    assert_eq!(paths.root, "");
    assert_eq!(paths.build_dir, "out");
    assert_eq!(paths.template_kind, TemplateKind::Builtin);
    assert_eq!(paths.def_config, TypeDefFile::default());
    assert!(paths.is_global);
    assert_eq!(
        paths.lua_addon,
        Some(LuaAddon::Create { words: Vec::new(), files: Vec::new(), settings: Vec::new() })
    );
}
