//! Definition files: one file for the whole library from each configured
//! template.

use crate::config::{
    DefTemplateKind, DefTemplateKindView, DefTemplateRunnerKind, NamedDefTemplateView, TypeDefFile,
};
use crate::generation::html::TextSource;
use crate::text::{chars_of, concat_str, join_path, joined_path, string_of};
use crate::type_model::views;
use vstd::prelude::*;

verus! {

/// The extension of a definition file as it is put behind the name of the
/// library: `extension` without the dot it may begin with.
pub open spec fn bare_extension(extension: Seq<char>) -> Seq<char> {
    if extension.len() > 0 && extension[0] == '.' {
        extension.skip(1)
    } else {
        extension
    }
}

/// The file name of the definition file of the library `name` with the
/// configured `extension`.
pub open spec fn definition_file_name(name: Seq<char>, extension: Seq<char>) -> Seq<char> {
    name + "."@ + bare_extension(extension)
}

/// The file name of the definition file of `name` for `extension`: the name,
/// a dot, and the extension without a dot of its own at its start.
pub fn get_definition_file_name(name: &str, extension: &str) -> (file: String)
    ensures
        file@ == definition_file_name(name@, extension@),
{
    let chars = chars_of(extension);
    let from: usize = if chars.len() > 0 && chars[0] == '.' {
        1
    } else {
        0
    };
    let bare = string_of(&chars, from, chars.len());
    let mut file = concat_str(name, ".");
    file.append(bare.as_str());
    file
}

/// A definition file that a run makes.
#[derive(Clone, Debug, PartialEq, Eq)]
pub struct DefinitionFile {
    /// Where the template of the file comes from.
    pub template: TextSource,
    /// Where the file is written.
    pub path: String,
}

/// What a [`DefinitionFile`] stands for.
pub struct DefinitionFileView {
    /// The path of the template; none for the built-in one.
    pub template: Option<Seq<char>>,
    pub path: Seq<char>,
}

impl View for DefinitionFile {
    type V = DefinitionFileView;

    open spec fn view(&self) -> DefinitionFileView {
        DefinitionFileView { template: self.template@, path: self.path@ }
    }
}

/// What runs the templates under `runner`: the file it names, or what is
/// built in.
pub open spec fn runner_source(runner: DefTemplateRunnerKind) -> Option<Seq<char>> {
    match runner {
        DefTemplateRunnerKind::Builtin => None,
        DefTemplateRunnerKind::Custom(path) => Some(path@),
    }
}

/// The folder below `write_path` that holds the definition files.
pub open spec fn definition_folder(write_path: Seq<char>) -> Seq<char> {
    joined_path(write_path, "definitions"@)
}

/// The definition file that `template` asks for, for the library `name`.
pub open spec fn definition_file(
    template: NamedDefTemplateView,
    write_path: Seq<char>,
    name: Seq<char>,
) -> DefinitionFileView {
    DefinitionFileView {
        template: match template.config.template {
            DefTemplateKindView::Teal => None,
            DefTemplateKindView::Custom(path) => Some(path),
        },
        path: joined_path(
            definition_folder(write_path),
            definition_file_name(name, template.config.extension),
        ),
    }
}

/// The definition files that `templates` ask for: one for each of them.
pub open spec fn definition_files(
    templates: Seq<NamedDefTemplateView>,
    write_path: Seq<char>,
    name: Seq<char>,
) -> Seq<DefinitionFileView> {
    templates.map_values(
        |template: NamedDefTemplateView| definition_file(template, write_path, name),
    )
}

/// What the definition files of a run are made from, and where they go.
#[derive(Clone, Debug, PartialEq, Eq)]
pub struct DefinitionPlan {
    /// The folder that holds the files.
    pub folder: String,
    /// What runs the templates.
    pub runner: TextSource,
    pub files: Vec<DefinitionFile>,
}

/// The definition files of the library `name` under `config`, below
/// `write_path`: one file for each configured template, in the folder
/// `definitions`, called after the library, with the configured extension.
pub fn create_d_file(config: &TypeDefFile, write_path: &str, name: &str) -> (plan: DefinitionPlan)
    ensures
        plan.folder@ == definition_folder(write_path@),
        plan.runner@ == runner_source(config.runner),
        views(plan.files@) == definition_files(views(config.templates@), write_path@, name@),
{
    let folder = join_path(write_path, "definitions");
    let runner = match &config.runner {
        DefTemplateRunnerKind::Builtin => TextSource::Builtin,
        DefTemplateRunnerKind::Custom(path) => TextSource::File(path.clone()),
    };
    let ghost wanted = definition_files(views(config.templates@), write_path@, name@);
    let mut files: Vec<DefinitionFile> = Vec::new();
    let mut i: usize = 0;
    while i < config.templates.len()
        invariant
            i <= config.templates.len(),
            folder@ == definition_folder(write_path@),
            wanted == definition_files(views(config.templates@), write_path@, name@),
            views(files@) == wanted.take(i as int),
        decreases config.templates.len() - i,
    {
        let template = &config.templates[i];
        let ghost before = views(files@);
        let file = DefinitionFile {
            template: match &template.config.template {
                DefTemplateKind::Teal => TextSource::Builtin,
                DefTemplateKind::Custom(path) => TextSource::File(path.clone()),
            },
            path: join_path(
                folder.as_str(),
                get_definition_file_name(name, template.config.extension.as_str()).as_str(),
            ),
        };
        files.push(file);
        assert(views(files@) =~= before.push(wanted[i as int]));
        i += 1;
    }
    DefinitionPlan { folder, runner, files }
}

} // verus!
