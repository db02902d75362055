//! The whole exported surface of a library, as it is loaded once per run.

use crate::type_generator::{TypeGenerator, TypeGeneratorView};
use crate::type_model::{views, Type, TypeView};
use vstd::prelude::*;

verus! {

/// A top-level value that the library exports outside any record.
#[derive(Clone, Debug, PartialEq, Eq)]
pub struct GlobalInstance {
    pub name: String,
    pub ty: Type,
    pub doc: String,
}

/// What a [`GlobalInstance`] stands for.
pub struct GlobalInstanceView {
    pub name: Seq<char>,
    pub ty: TypeView,
    pub doc: Seq<char>,
}

impl View for GlobalInstance {
    type V = GlobalInstanceView;

    open spec fn view(&self) -> GlobalInstanceView {
        GlobalInstanceView { name: self.name@, ty: self.ty@, doc: self.doc@ }
    }
}

/// A page of free text that is rendered beside the pages of the types.
#[derive(Clone, Debug, PartialEq, Eq)]
pub struct ExtraPage {
    pub name: String,
    /// The Markdown text of the page.
    pub content: String,
}

/// What an [`ExtraPage`] stands for.
pub struct ExtraPageView {
    pub name: Seq<char>,
    pub content: Seq<char>,
}

impl View for ExtraPage {
    type V = ExtraPageView;

    open spec fn view(&self) -> ExtraPageView {
        ExtraPageView { name: self.name@, content: self.content@ }
    }
}

/// Everything a library exports.
#[derive(Clone, Debug, PartialEq, Eq)]
pub struct TypeWalker {
    /// The version of the schema that the description was written in.
    pub version: String,
    pub given_types: Vec<TypeGenerator>,
    pub global_instances_off: Vec<GlobalInstance>,
    pub extra_page: Vec<ExtraPage>,
}

/// What a [`TypeWalker`] stands for.
pub struct TypeWalkerView {
    pub version: Seq<char>,
    pub given_types: Seq<TypeGeneratorView>,
    pub global_instances_off: Seq<GlobalInstanceView>,
    pub extra_page: Seq<ExtraPageView>,
}

impl View for TypeWalker {
    type V = TypeWalkerView;

    open spec fn view(&self) -> TypeWalkerView {
        TypeWalkerView {
            version: self.version@,
            given_types: views(self.given_types@),
            global_instances_off: views(self.global_instances_off@),
            extra_page: views(self.extra_page@),
        }
    }
}

impl TypeWalker {
    /// Whether the description was written in the schema version `expected`.
    pub fn check_correct_version(&self, expected: &str) -> (r: bool)
        ensures
            r == (self.version@ == expected@),
    {
        crate::text::same_str(self.version.as_str(), expected)
    }
}

} // verus!
