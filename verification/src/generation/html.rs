//! Pages: what a template is handed for each page, and the links a template
//! makes by name.

use crate::config::TemplateKind;
use crate::find_uses::{User, UserView};
use crate::text::{
    chars_of, find_char, join_path, joined_path, position_of, same_str, string_of,
};
use crate::type_generator::{TypeGenerator, TypeGeneratorView};
use crate::type_model::views;
use vstd::prelude::*;

verus! {

/// The page of one type.
#[derive(Clone, Debug, PartialEq, Eq)]
pub struct TypeDesc<'a> {
    /// The type and its members.
    pub type_members: &'a TypeGenerator,
    /// The name of the page.
    pub page_name: String,
    /// The types that use this type.
    pub used_by: Vec<User>,
}

/// The index page, which shows what is inlined.
#[derive(Clone, Debug, PartialEq, Eq)]
pub struct IndexPage<'a> {
    pub all_types: &'a Vec<TypeGenerator>,
    /// The name of the page.
    pub page_name: String,
    /// The inlined records, merged into one.
    pub type_members: TypeGenerator,
}

/// A page of free text.
#[derive(Clone, Debug, PartialEq, Eq)]
pub struct CustomPage {
    pub name: String,
    pub markdown_content: String,
}

/// What a page shows.
#[derive(Clone, Debug, PartialEq, Eq)]
pub enum TypeOrPage<'a> {
    Type(TypeDesc<'a>),
    IndexPage(IndexPage<'a>),
    CustomPage(CustomPage),
}

/// What a [`TypeOrPage`] stands for.
pub enum TypeOrPageView {
    Type { type_members: TypeGeneratorView, page_name: Seq<char>, used_by: Seq<UserView> },
    IndexPage {
        all_types: Seq<TypeGeneratorView>,
        page_name: Seq<char>,
        type_members: TypeGeneratorView,
    },
    CustomPage { name: Seq<char>, markdown_content: Seq<char> },
}

impl<'a> View for TypeOrPage<'a> {
    type V = TypeOrPageView;

    open spec fn view(&self) -> TypeOrPageView {
        match self {
            TypeOrPage::Type(page) => TypeOrPageView::Type {
                type_members: page.type_members@,
                page_name: page.page_name@,
                used_by: views(page.used_by@),
            },
            TypeOrPage::IndexPage(page) => TypeOrPageView::IndexPage {
                all_types: views(page.all_types@),
                page_name: page.page_name@,
                type_members: page.type_members@,
            },
            TypeOrPage::CustomPage(page) => TypeOrPageView::CustomPage {
                name: page.name@,
                markdown_content: page.markdown_content@,
            },
        }
    }
}

/// The name of the page of `ty`: the index for an inlined record, else the
/// name of the type.
pub open spec fn page_name_of(ty: TypeGeneratorView) -> Seq<char> {
    if ty.is_inlined() {
        "index"@
    } else {
        ty.shown_name()
    }
}

/// The name of the page of `type_def`.
pub fn get_page_name(type_def: &TypeGenerator) -> (name: String)
    ensures
        name@ == page_name_of(type_def@),
{
    if crate::doc_gen::type_should_be_inlined(type_def) {
        "index".to_owned()
    } else {
        crate::doc_gen::get_type_name(type_def).clone()
    }
}

/// Where a text comes from that a run needs: from the program itself, or
/// from a file.
#[derive(Clone, Debug, PartialEq, Eq)]
pub enum TextSource {
    Builtin,
    File(String),
}

/// Where the template of the pages and its runner come from.
#[derive(Clone, Debug, PartialEq, Eq)]
pub struct TemplateSources {
    pub template: TextSource,
    pub runner: TextSource,
}

impl View for TextSource {
    /// The path of the file; none for what is built in.
    type V = Option<Seq<char>>;

    open spec fn view(&self) -> Option<Seq<char>> {
        match self {
            TextSource::Builtin => None,
            TextSource::File(path) => Some(path@),
        }
    }
}

/// Whether `sources` is where `template_kind` takes the template and its
/// runner from: what is not named by a path is built in.
pub open spec fn are_sources_of(sources: TemplateSources, template_kind: TemplateKind) -> bool {
    match template_kind {
        TemplateKind::Builtin => sources.template@ is None && sources.runner@ is None,
        TemplateKind::FromLua(path) => sources.template@ is None && sources.runner@ == Some(path@),
        TemplateKind::FromTemplate(path) => sources.template@ == Some(path@) && sources.runner@
            is None,
    }
}

/// Where `template_kind` takes the template and its runner from.
pub fn template_sources(template_kind: &TemplateKind) -> (sources: TemplateSources)
    ensures
        are_sources_of(sources, *template_kind),
{
    match template_kind {
        TemplateKind::Builtin => TemplateSources {
            template: TextSource::Builtin,
            runner: TextSource::Builtin,
        },
        TemplateKind::FromLua(path) => TemplateSources {
            template: TextSource::Builtin,
            runner: TextSource::File(path.clone()),
        },
        TemplateKind::FromTemplate(path) => TemplateSources {
            template: TextSource::File(path.clone()),
            runner: TextSource::Builtin,
        },
    }
}

/// Whether an inlined record of `types` is shown under `name`.
pub open spec fn names_inlined(types: Seq<TypeGeneratorView>, name: Seq<char>) -> bool {
    exists|i: int|
        0 <= i < types.len() && (#[trigger] types[i]).is_inlined() && types[i].shown_name() == name
}

/// The page that a link to `name` goes to: what stands in `name` before the
/// first `#`, or the index where that is the name of an inlined record.
pub open spec fn linked_page(name: Seq<char>, types: Option<Seq<TypeGeneratorView>>) -> Seq<char> {
    let page = name.take(position_of(name, '#'));
    if types matches Some(types) && names_inlined(types, page) {
        "index"@
    } else {
        page
    }
}

/// The link that a template makes to `name` below `base`: the page, the
/// extension of a page, and what stands in `name` from the first `#` on.
pub open spec fn created_link(
    name: Seq<char>,
    types: Option<Seq<TypeGeneratorView>>,
    base: Seq<char>,
) -> Seq<char> {
    joined_path(base, linked_page(name, types) + ".html"@ + name.skip(position_of(name, '#')))
}

fn is_inlined_name(types: &Vec<TypeGenerator>, name: &str) -> (r: bool)
    ensures
        r == names_inlined(views(types@), name@),
{
    let ghost all = views(types@);
    let mut i: usize = 0;
    while i < types.len()
        invariant
            i <= types.len(),
            all == views(types@),
            forall|j: int|
                0 <= j < i ==> !((#[trigger] all[j]).is_inlined() && all[j].shown_name() == name@),
        decreases types.len() - i,
    {
        assert(all[i as int] == types[i as int]@);
        match &types[i] {
            TypeGenerator::Record(record) => {
                if record.should_be_inlined && same_str(record.name.as_str(), name) {
                    return true;
                }
            },
            TypeGenerator::Enum(_) => {},
        }
        i += 1;
    }
    false
}

/// The link to the page called `name` below `link_path`, as
/// [`created_link`] says: `name` may end in a fragment, which starts at its
/// first `#` and is kept behind the file name.
pub fn create_link(name: &str, all_types: Option<&Vec<TypeGenerator>>, link_path: &str) -> (link:
    String)
    ensures
        link@ == created_link(
            name@,
            match all_types {
                Some(types) => Some(views(types@)),
                None => None,
            },
            link_path@,
        ),
{
    let chars = chars_of(name);
    let at = find_char(&chars, '#');
    let page = string_of(&chars, 0, at);
    let hash = string_of(&chars, at, chars.len());
    let is_index = match all_types {
        None => false,
        Some(types) => is_inlined_name(types, page.as_str()),
    };
    let mut file = if is_index {
        "index".to_owned()
    } else {
        page
    };
    file.append(".html");
    file.append(hash.as_str());
    join_path(link_path, file.as_str())
}

} // verus!
