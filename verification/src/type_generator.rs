//! The exported types of a library: records with their members, and enums.

use crate::type_model::{
    clone_params, clone_types, params_view, types_view, views, FunctionParam, FunctionParamView,
    FunctionRepresentation, KindOfType, SingleType, SingleTypeView, Type, TypeView,
};
use vstd::prelude::*;

verus! {

/// A field of a record: its name and the type of its value.
#[derive(Debug, PartialEq, Eq)]
pub struct Field {
    pub name: String,
    pub ty: Type,
}

/// What a [`Field`] stands for.
pub struct FieldView {
    pub name: Seq<char>,
    pub ty: TypeView,
}

impl View for Field {
    type V = FieldView;

    open spec fn view(&self) -> FieldView {
        FieldView { name: self.name@, ty: self.ty@ }
    }
}

impl Clone for Field {
    fn clone(&self) -> (r: Self)
        ensures
            r@ == self@,
    {
        Field { name: self.name.clone(), ty: self.ty.clone() }
    }
}

/// A function or method that a record exposes.
#[derive(Debug, PartialEq, Eq)]
pub struct ExportedFunction {
    pub name: String,
    pub params: Vec<FunctionParam>,
    pub return_types: Vec<Type>,
    pub is_meta_method: bool,
}

/// What an [`ExportedFunction`] stands for.
pub struct ExportedFunctionView {
    pub name: Seq<char>,
    pub params: Seq<FunctionParamView>,
    pub return_types: Seq<TypeView>,
    pub is_meta_method: bool,
}

impl View for ExportedFunction {
    type V = ExportedFunctionView;

    open spec fn view(&self) -> ExportedFunctionView {
        ExportedFunctionView {
            name: self.name@,
            params: params_view(self.params),
            return_types: types_view(self.return_types),
            is_meta_method: self.is_meta_method,
        }
    }
}

impl ExportedFunctionView {
    /// The function seen as a type expression.
    pub open spec fn signature(self) -> TypeView {
        TypeView::Function { params: self.params, return_types: self.return_types }
    }
}

impl Clone for ExportedFunction {
    fn clone(&self) -> (r: Self)
        ensures
            r@ == self@,
    {
        ExportedFunction {
            name: self.name.clone(),
            params: clone_params(&self.params),
            return_types: clone_types(&self.return_types),
            is_meta_method: self.is_meta_method,
        }
    }
}

impl ExportedFunction {
    /// The function as a type expression: its parameters and what it returns.
    pub fn into_type(&self) -> (ty: Type)
        ensures
            ty@ == self@.signature(),
    {
        Type::Function(
            FunctionRepresentation {
                params: clone_params(&self.params),
                return_types: clone_types(&self.return_types),
            },
        )
    }
}

/// The documentation of one member of a record.
#[derive(Debug, PartialEq, Eq)]
pub struct MemberDoc {
    pub member: String,
    pub text: String,
}

/// What a [`MemberDoc`] stands for.
pub struct MemberDocView {
    pub member: Seq<char>,
    pub text: Seq<char>,
}

impl View for MemberDoc {
    type V = MemberDocView;

    open spec fn view(&self) -> MemberDocView {
        MemberDocView { member: self.member@, text: self.text@ }
    }
}

impl Clone for MemberDoc {
    fn clone(&self) -> (r: Self)
        ensures
            r@ == self@,
    {
        MemberDoc { member: self.member.clone(), text: self.text.clone() }
    }
}

/// A record: a named type with fields, functions and methods.
///
/// `name` is the name the record is shown under; `ty` is the type expression
/// that other types refer to it by.
#[derive(Clone, Debug, PartialEq, Eq)]
pub struct RecordGenerator {
    /// Whether the members belong on the index page instead of a page of
    /// their own.
    pub should_be_inlined: bool,
    pub name: String,
    pub ty: Type,
    pub fields: Vec<Field>,
    pub static_fields: Vec<Field>,
    pub methods: Vec<ExportedFunction>,
    pub mut_methods: Vec<ExportedFunction>,
    pub functions: Vec<ExportedFunction>,
    pub mut_functions: Vec<ExportedFunction>,
    pub meta_method: Vec<ExportedFunction>,
    pub meta_method_mut: Vec<ExportedFunction>,
    pub meta_function: Vec<ExportedFunction>,
    pub meta_function_mut: Vec<ExportedFunction>,
    /// Documentation by member. Where a member occurs twice the later entry
    /// counts.
    pub documentation: Vec<MemberDoc>,
    pub type_doc: String,
}

/// What a [`RecordGenerator`] stands for.
pub struct RecordView {
    pub should_be_inlined: bool,
    pub name: Seq<char>,
    pub ty: TypeView,
    pub fields: Seq<FieldView>,
    pub static_fields: Seq<FieldView>,
    pub methods: Seq<ExportedFunctionView>,
    pub mut_methods: Seq<ExportedFunctionView>,
    pub functions: Seq<ExportedFunctionView>,
    pub mut_functions: Seq<ExportedFunctionView>,
    pub meta_method: Seq<ExportedFunctionView>,
    pub meta_method_mut: Seq<ExportedFunctionView>,
    pub meta_function: Seq<ExportedFunctionView>,
    pub meta_function_mut: Seq<ExportedFunctionView>,
    pub documentation: Seq<MemberDocView>,
    pub type_doc: Seq<char>,
}

impl View for RecordGenerator {
    type V = RecordView;

    open spec fn view(&self) -> RecordView {
        RecordView {
            should_be_inlined: self.should_be_inlined,
            name: self.name@,
            ty: self.ty@,
            fields: views(self.fields@),
            static_fields: views(self.static_fields@),
            methods: views(self.methods@),
            mut_methods: views(self.mut_methods@),
            functions: views(self.functions@),
            mut_functions: views(self.mut_functions@),
            meta_method: views(self.meta_method@),
            meta_method_mut: views(self.meta_method_mut@),
            meta_function: views(self.meta_function@),
            meta_function_mut: views(self.meta_function_mut@),
            documentation: views(self.documentation@),
            type_doc: self.type_doc@,
        }
    }
}

/// An enum: a named type with a list of variants.
#[derive(Clone, Debug, PartialEq, Eq)]
pub struct EnumGenerator {
    pub name: String,
    pub ty: Type,
    pub variants: Vec<String>,
    pub type_doc: String,
}

/// What an [`EnumGenerator`] stands for.
pub struct EnumView {
    pub name: Seq<char>,
    pub ty: TypeView,
    pub variants: Seq<Seq<char>>,
    pub type_doc: Seq<char>,
}

impl View for EnumGenerator {
    type V = EnumView;

    open spec fn view(&self) -> EnumView {
        EnumView {
            name: self.name@,
            ty: self.ty@,
            variants: views(self.variants@),
            type_doc: self.type_doc@,
        }
    }
}

/// One exported type.
#[derive(Clone, Debug, PartialEq, Eq)]
pub enum TypeGenerator {
    Record(Box<RecordGenerator>),
    Enum(EnumGenerator),
}

/// What a [`TypeGenerator`] stands for.
pub enum TypeGeneratorView {
    Record(RecordView),
    Enum(EnumView),
}

impl View for TypeGenerator {
    type V = TypeGeneratorView;

    open spec fn view(&self) -> TypeGeneratorView {
        match self {
            TypeGenerator::Record(record) => TypeGeneratorView::Record(record@),
            TypeGenerator::Enum(e) => TypeGeneratorView::Enum(e@),
        }
    }
}

impl TypeGeneratorView {
    /// The type expression that refers to this type.
    pub open spec fn ty(self) -> TypeView {
        match self {
            TypeGeneratorView::Record(record) => record.ty,
            TypeGeneratorView::Enum(e) => e.ty,
        }
    }

    /// The name this type is shown under.
    pub open spec fn shown_name(self) -> Seq<char> {
        match self {
            TypeGeneratorView::Record(record) => record.name,
            TypeGeneratorView::Enum(e) => e.name,
        }
    }

    /// Whether the members of this type belong on the index page.
    pub open spec fn is_inlined(self) -> bool {
        match self {
            TypeGeneratorView::Record(record) => record.should_be_inlined,
            TypeGeneratorView::Enum(_) => false,
        }
    }

    /// The single type that refers to this type, if it is referred to by one.
    pub open spec fn single(self) -> Option<SingleTypeView> {
        match self.ty() {
            TypeView::Single(single) => Some(single),
            _ => None,
        }
    }
}

impl TypeGenerator {
    /// The type expression that refers to this type.
    pub fn ty(&self) -> (ty: &Type)
        ensures
            ty@ == self@.ty(),
    {
        match self {
            TypeGenerator::Record(record) => &record.ty,
            TypeGenerator::Enum(e) => &e.ty,
        }
    }

    /// Whether this is a record whose members belong on the index page.
    pub fn is_inlined(&self) -> (r: bool)
        ensures
            r == self@.is_inlined(),
    {
        match self {
            TypeGenerator::Record(record) => record.should_be_inlined,
            TypeGenerator::Enum(_) => false,
        }
    }

    /// The record, if this is one.
    pub fn record(&self) -> (r: Option<&RecordGenerator>)
        ensures
            match r {
                Some(record) => self@ == TypeGeneratorView::Record(record@),
                None => self@ is Enum,
            },
    {
        match self {
            TypeGenerator::Record(record) => Some(record),
            TypeGenerator::Enum(_) => None,
        }
    }
}

/// Puts copies of `more` behind what `fields` holds.
pub fn extend_fields(fields: &mut Vec<Field>, more: &Vec<Field>)
    ensures
        views(final(fields)@) == views(old(fields)@) + views(more@),
{
    let ghost start = views(fields@);
    let ghost added = views(more@);
    let mut i: usize = 0;
    while i < more.len()
        invariant
            i <= more.len(),
            added == views(more@),
            views(fields@) == start + added.take(i as int),
        decreases more.len() - i,
    {
        let ghost before = views(fields@);
        fields.push(more[i].clone());
        assert(views(fields@) =~= before.push(added[i as int]));
        i += 1;
    }
}

/// Puts copies of `more` behind what `functions` holds.
pub fn extend_functions(functions: &mut Vec<ExportedFunction>, more: &Vec<ExportedFunction>)
    ensures
        views(final(functions)@) == views(old(functions)@) + views(more@),
{
    let ghost start = views(functions@);
    let ghost added = views(more@);
    let mut i: usize = 0;
    while i < more.len()
        invariant
            i <= more.len(),
            added == views(more@),
            views(functions@) == start + added.take(i as int),
        decreases more.len() - i,
    {
        let ghost before = views(functions@);
        functions.push(more[i].clone());
        assert(views(functions@) =~= before.push(added[i as int]));
        i += 1;
    }
}

/// Puts copies of `more` behind what `docs` holds.
pub fn extend_docs(docs: &mut Vec<MemberDoc>, more: &Vec<MemberDoc>)
    ensures
        views(final(docs)@) == views(old(docs)@) + views(more@),
{
    let ghost start = views(docs@);
    let ghost added = views(more@);
    let mut i: usize = 0;
    while i < more.len()
        invariant
            i <= more.len(),
            added == views(more@),
            views(docs@) == start + added.take(i as int),
        decreases more.len() - i,
    {
        let ghost before = views(docs@);
        docs.push(more[i].clone());
        assert(views(docs@) =~= before.push(added[i as int]));
        i += 1;
    }
}

/// The record that the inlined records are merged into before anything is
/// merged: the index, with no members.
pub open spec fn empty_index() -> RecordView {
    RecordView {
        should_be_inlined: true,
        name: "index"@,
        ty: TypeView::Single(
            SingleTypeView {
                name: "index"@,
                kind: KindOfType::External,
                generics: Seq::empty(),
            },
        ),
        fields: Seq::empty(),
        static_fields: Seq::empty(),
        methods: Seq::empty(),
        mut_methods: Seq::empty(),
        functions: Seq::empty(),
        mut_functions: Seq::empty(),
        meta_method: Seq::empty(),
        meta_method_mut: Seq::empty(),
        meta_function: Seq::empty(),
        meta_function_mut: Seq::empty(),
        documentation: Seq::empty(),
        type_doc: Seq::empty(),
    }
}

impl RecordView {
    /// This record with the members and the documentation of `other` behind
    /// its own.
    pub open spec fn with_members_of(self, other: RecordView) -> RecordView {
        RecordView {
            should_be_inlined: self.should_be_inlined,
            name: self.name,
            ty: self.ty,
            fields: self.fields + other.fields,
            static_fields: self.static_fields + other.static_fields,
            methods: self.methods + other.methods,
            mut_methods: self.mut_methods + other.mut_methods,
            functions: self.functions + other.functions,
            mut_functions: self.mut_functions + other.mut_functions,
            meta_method: self.meta_method + other.meta_method,
            meta_method_mut: self.meta_method_mut + other.meta_method_mut,
            meta_function: self.meta_function + other.meta_function,
            meta_function_mut: self.meta_function_mut + other.meta_function_mut,
            documentation: self.documentation + other.documentation,
            type_doc: self.type_doc + other.type_doc,
        }
    }
}

/// The inlined records among the first `n` of `types`, merged into one
/// record in the order of the graph.
pub open spec fn merged_inlined(types: Seq<TypeGeneratorView>, n: nat) -> RecordView
    decreases n,
{
    if 0 < n <= types.len() {
        let before = merged_inlined(types, (n - 1) as nat);
        match types[n - 1] {
            TypeGeneratorView::Record(record) => if record.should_be_inlined {
                before.with_members_of(record)
            } else {
                before
            },
            TypeGeneratorView::Enum(_) => before,
        }
    } else {
        empty_index()
    }
}

impl RecordGenerator {
    /// The index record without members.
    pub fn new_index() -> (record: Self)
        ensures
            record@ == empty_index(),
    {
        let generics: Vec<Type> = Vec::new();
        assert(types_view(generics) =~= Seq::empty());
        let single = SingleType { name: "index".to_owned(), kind: KindOfType::External, generics };
        assert(single@ == SingleTypeView {
            name: "index"@,
            kind: KindOfType::External,
            generics: Seq::empty(),
        });
        let ty = Type::Single(single);
        let record = RecordGenerator {
            should_be_inlined: true,
            name: "index".to_owned(),
            ty,
            fields: Vec::new(),
            static_fields: Vec::new(),
            methods: Vec::new(),
            mut_methods: Vec::new(),
            functions: Vec::new(),
            mut_functions: Vec::new(),
            meta_method: Vec::new(),
            meta_method_mut: Vec::new(),
            meta_function: Vec::new(),
            meta_function_mut: Vec::new(),
            documentation: Vec::new(),
            type_doc: String::new(),
        };
        assert(record@.fields =~= Seq::empty());
        assert(record@.methods =~= Seq::empty());
        assert(record@.documentation =~= Seq::empty());
        record
    }

    /// Puts the members and the documentation of `other` behind those of
    /// this record.
    pub fn absorb(&mut self, other: &RecordGenerator)
        ensures
            final(self)@ == old(self)@.with_members_of(other@),
    {
        extend_docs(&mut self.documentation, &other.documentation);
        extend_fields(&mut self.fields, &other.fields);
        extend_functions(&mut self.functions, &other.functions);
        extend_functions(&mut self.meta_function, &other.meta_function);
        extend_functions(&mut self.meta_function_mut, &other.meta_function_mut);
        extend_functions(&mut self.meta_method, &other.meta_method);
        extend_functions(&mut self.meta_method_mut, &other.meta_method_mut);
        extend_functions(&mut self.methods, &other.methods);
        extend_functions(&mut self.mut_functions, &other.mut_functions);
        extend_functions(&mut self.mut_methods, &other.mut_methods);
        extend_fields(&mut self.static_fields, &other.static_fields);
        self.type_doc.append(other.type_doc.as_str());
    }
}

/// Merges the inlined records of `types` into the one record that the index
/// page shows: the members of every inlined record, collection by
/// collection, in the order of the graph, and their documentation.
pub fn merge_inlined(types: &Vec<TypeGenerator>) -> (merged: RecordGenerator)
    ensures
        merged@ == merged_inlined(views(types@), types.len() as nat),
{
    let mut merged = RecordGenerator::new_index();
    let ghost all = views(types@);
    let mut i: usize = 0;
    while i < types.len()
        invariant
            i <= types.len(),
            all == views(types@),
            merged@ == merged_inlined(all, i as nat),
        decreases types.len() - i,
    {
        match &types[i] {
            TypeGenerator::Record(record) => {
                if record.should_be_inlined {
                    merged.absorb(record);
                }
            },
            TypeGenerator::Enum(_) => {},
        }
        i += 1;
    }
    merged
}

} // verus!
