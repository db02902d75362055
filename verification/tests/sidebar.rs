use tealr_doc_gen::config::{Paths, TemplateKind, TypeDefFile};
use tealr_doc_gen::generation::sidebar::{
    generate_sidebar_data, members_of_type, page_of_type, SideBar,
};
use tealr_doc_gen::render_type::LinkDiagnostic;
use tealr_doc_gen::type_generator::{
    EnumGenerator, ExportedFunction, Field, RecordGenerator, TypeGenerator,
};
use tealr_doc_gen::type_model::{KindOfType, SingleType, Type};
use tealr_doc_gen::type_walker::TypeWalker;

fn external(name: &str) -> Type {
    Type::Single(SingleType {
        name: name.to_string(),
        kind: KindOfType::External,
        generics: Vec::new(),
    })
}

fn empty_record(name: &str, inlined: bool) -> RecordGenerator {
    RecordGenerator {
        should_be_inlined: inlined,
        name: name.to_string(),
        ty: external(name),
        fields: Vec::new(),
        static_fields: Vec::new(),
        methods: Vec::new(),
        mut_methods: Vec::new(),
        functions: Vec::new(),
        mut_functions: Vec::new(),
        meta_method: Vec::new(),
        meta_method_mut: Vec::new(),
        meta_function: Vec::new(),
        meta_function_mut: Vec::new(),
        documentation: Vec::new(),
        type_doc: String::new(),
    }
}

fn field(name: &str) -> Field {
    Field { name: name.to_string(), ty: external("Anything") }
}

fn function(name: &str) -> ExportedFunction {
    ExportedFunction {
        name: name.to_string(),
        params: Vec::new(),
        return_types: Vec::new(),
        is_meta_method: false,
    }
}

fn paths(name: &str) -> Paths {
    Paths {
        json: format!("{}.json", name),
        name: name.to_string(),
        root: "api".to_string(),
        build_dir: "pages".to_string(),
        template_kind: TemplateKind::Builtin,
        def_config: TypeDefFile::default(),
        is_global: true,
        lua_addon: None,
    }
}

fn walker(given_types: Vec<TypeGenerator>) -> TypeWalker {
    TypeWalker {
        version: "0.11.0".to_string(),
        given_types,
        global_instances_off: Vec::new(),
        extra_page: Vec::new(),
    }
}

fn names(entry: &SideBar) -> Vec<&str> {
    entry.members.iter().map(|m| m.name.as_str()).collect()
}

fn full_record(name: &str, inlined: bool, tag: &str) -> RecordGenerator {
    let mut record = empty_record(name, inlined);
    let named = |kind: &str| format!("{}{}", kind, tag);
    record.functions = vec![function(&named("fun"))];
    record.mut_functions = vec![function(&named("mfun"))];
    record.fields = vec![field(&named("field"))];
    record.static_fields = vec![field(&named("static"))];
    record.methods = vec![function(&named("met"))];
    record.mut_methods = vec![function(&named("mmet"))];
    record.meta_function = vec![function(&named("xf"))];
    record.meta_function_mut = vec![function(&named("xfm"))];
    record.meta_method = vec![function(&named("xm"))];
    record.meta_method_mut = vec![function(&named("xmm"))];
    record
}

#[test]
fn members_stand_in_the_order_of_the_sidebar() {
    let record = TypeGenerator::Record(Box::new(full_record("R", false, "")));
    let members = members_of_type(&record);
    let listed: Vec<&str> = members.iter().map(|m| m.name.as_str()).collect();
    assert_eq!(
        listed,
        vec!["fun", "mfun", "field", "static", "met", "mmet", "xf", "xfm", "xm", "xmm"]
    );
}

#[test]
fn the_members_of_an_enum_are_its_variants() {
    let color = TypeGenerator::Enum(EnumGenerator {
        name: "Color".to_string(),
        ty: external("Color"),
        variants: vec!["red".to_string(), "green".to_string()],
        type_doc: String::new(),
    });
    let members = members_of_type(&color);
    let listed: Vec<&str> = members.iter().map(|m| m.name.as_str()).collect();
    assert_eq!(listed, vec!["red", "green"]);
}

#[test]
fn every_type_with_a_page_has_an_entry_in_graph_order() {
    let graph = walker(vec![
        TypeGenerator::Record(Box::new(full_record("Zebra", false, ""))),
        TypeGenerator::Enum(EnumGenerator {
            name: "Color".to_string(),
            ty: external("Color"),
            variants: vec!["red".to_string()],
            type_doc: String::new(),
        }),
        TypeGenerator::Record(Box::new(empty_record("Apple", false))),
    ]);
    let (sidebar, findings) = generate_sidebar_data(&graph, &paths("lib"), "/api");
    assert!(findings.is_empty());
    assert_eq!(sidebar.len(), 3);
    assert_eq!(sidebar[0].name, "Zebra");
    assert_eq!(sidebar[0].link_to, "/api/Zebra.html");
    assert_eq!(names(&sidebar[0]).len(), 10);
    assert_eq!(sidebar[1].name, "Color");
    assert_eq!(sidebar[1].link_to, "/api/Color.html");
    assert_eq!(names(&sidebar[1]), vec!["red"]);
    assert_eq!(sidebar[2].name, "Apple");
    assert_eq!(sidebar[2].link_to, "/api/Apple.html");
    assert!(sidebar[2].members.is_empty());
}

#[test]
fn inlined_records_share_the_entry_of_the_index() {
    let graph = walker(vec![
        TypeGenerator::Record(Box::new(empty_record("Before", false))),
        TypeGenerator::Record(Box::new(full_record("First", true, "1"))),
        TypeGenerator::Record(Box::new(empty_record("Between", false))),
        TypeGenerator::Record(Box::new(full_record("Second", true, "2"))),
    ]);
    let (sidebar, findings) = generate_sidebar_data(&graph, &paths("mylib"), "/api");
    assert!(findings.is_empty());
    let shown: Vec<&str> = sidebar.iter().map(|e| e.name.as_str()).collect();
    assert_eq!(shown, vec!["Before", "mylib", "Between"]);
    assert_eq!(sidebar[1].link_to, "/api/index.html");
    assert_eq!(
        names(&sidebar[1]),
        vec![
            "fun1", "fun2", "mfun1", "mfun2", "field1", "field2", "static1", "static2", "met1",
            "met2", "mmet1", "mmet2", "xf1", "xf2", "xfm1", "xfm2", "xm1", "xm2", "xmm1", "xmm2",
        ]
    );
}

#[test]
fn a_graph_without_inlined_records_has_no_entry_for_the_index() {
    let graph = walker(vec![TypeGenerator::Record(Box::new(empty_record("Only", false)))]);
    let (sidebar, _) = generate_sidebar_data(&graph, &paths("mylib"), "/api");
    assert_eq!(sidebar.len(), 1);
    assert_eq!(sidebar[0].name, "Only");
}

#[test]
fn a_relative_place_of_the_pages_is_joined_twice() {
    let graph = walker(vec![TypeGenerator::Record(Box::new(empty_record("Only", false)))]);
    let (sidebar, _) = generate_sidebar_data(&graph, &paths("mylib"), "api");
    assert_eq!(sidebar[0].link_to, "api/api/Only.html");
}

#[test]
fn a_name_that_two_types_share_is_found_for_each_of_them() {
    let graph = walker(vec![
        TypeGenerator::Record(Box::new(empty_record("Twin", false))),
        TypeGenerator::Record(Box::new(empty_record("Twin", false))),
        TypeGenerator::Record(Box::new(empty_record("Single", false))),
    ]);
    let (sidebar, findings) = generate_sidebar_data(&graph, &paths("mylib"), "/api");
    assert_eq!(sidebar.len(), 3);
    assert_eq!(
        findings,
        vec![
            LinkDiagnostic::AmbiguousType("Twin".to_string()),
            LinkDiagnostic::AmbiguousType("Twin".to_string()),
        ]
    );
}

#[test]
fn a_type_without_a_single_name_gets_the_page_of_its_shown_name() {
    let mut odd = empty_record("Odd<T>", false);
    odd.ty = Type::Array(Box::new(external("Odd")));
    let odd = TypeGenerator::Record(Box::new(odd));
    let all = vec![TypeGenerator::Record(Box::new(empty_record("Other", false)))];
    let (url, finding) = page_of_type(&odd, &all, "/api");
    assert_eq!(url, "/api/OddT.html");
    assert_eq!(finding, None);
}
