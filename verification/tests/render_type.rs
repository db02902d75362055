use tealr_doc_gen::render_type::{
    find_all_generics, is_type_compatible, link_to_index, link_to_page, type_to_link_url,
    LinkDiagnostic,
};
use tealr_doc_gen::type_generator::{EnumGenerator, RecordGenerator, TypeGenerator};
use tealr_doc_gen::type_model::{
    same_type, FunctionParam, FunctionRepresentation, KindOfType, MapRepresentation, SingleType,
    Type,
};

fn single_type(name: &str, kind: KindOfType, generics: Vec<Type>) -> SingleType {
    SingleType { name: name.to_string(), kind, generics }
}

fn external(name: &str) -> Type {
    Type::Single(single_type(name, KindOfType::External, Vec::new()))
}

fn generic(name: &str) -> Type {
    Type::Single(single_type(name, KindOfType::Generic, Vec::new()))
}

fn number() -> Type {
    Type::Single(single_type("number", KindOfType::Builtin, Vec::new()))
}

fn record(name: &str, ty: Type, inlined: bool) -> TypeGenerator {
    TypeGenerator::Record(Box::new(RecordGenerator {
        should_be_inlined: inlined,
        name: name.to_string(),
        ty,
        fields: Vec::new(),
        static_fields: Vec::new(),
        methods: Vec::new(),
        mut_methods: Vec::new(),
        functions: Vec::new(),
        mut_functions: Vec::new(),
        meta_method: Vec::new(),
        meta_method_mut: Vec::new(),
        meta_function: Vec::new(),
        meta_function_mut: Vec::new(),
        documentation: Vec::new(),
        type_doc: String::new(),
    }))
}

#[test]
fn types_are_compatible_by_name_and_number_of_generics() {
    let list_of_numbers = single_type("List", KindOfType::External, vec![number()]);
    let list_of_names = single_type("List", KindOfType::Builtin, vec![external("Name")]);
    let plain_list = single_type("List", KindOfType::External, Vec::new());
    let set_of_numbers = single_type("Set", KindOfType::External, vec![number()]);
    assert!(is_type_compatible(&list_of_numbers, list_of_names));
    assert!(!is_type_compatible(&list_of_numbers, plain_list));
    assert!(!is_type_compatible(&list_of_numbers, set_of_numbers));
}

#[test]
fn a_known_type_links_to_its_page() {
    let types = vec![record("Vec2", external("Vec2"), false)];
    let link = type_to_link_url(
        &single_type("Vec2", KindOfType::External, Vec::new()),
        &types,
        "/docs",
    );
    assert_eq!(link.url.as_deref(), Some("/docs/Vec2.html"));
    assert_eq!(link.diagnostic, None);
}

#[test]
fn an_inlined_type_links_to_the_index_page() {
    let types = vec![record("Library", external("Library"), true)];
    let link = type_to_link_url(
        &single_type("Library", KindOfType::External, Vec::new()),
        &types,
        "/docs",
    );
    assert_eq!(link.url.as_deref(), Some("/docs/index.html"));
    assert_eq!(link.url, Some(link_to_index("/docs")));
    assert_eq!(link.diagnostic, None);
}

#[test]
fn an_unknown_type_gets_no_link_and_one_finding() {
    let types = vec![record("Vec2", external("Vec2"), false)];
    let link = type_to_link_url(
        &single_type("Vec3", KindOfType::External, Vec::new()),
        &types,
        "/docs",
    );
    assert_eq!(link.url, None);
    let finding = link.diagnostic.expect("the type is unknown");
    assert_eq!(finding, LinkDiagnostic::UnknownType("Vec3".to_string()));
    assert_eq!(finding.message(), "Tried making link to unknown type: Vec3");
}

#[test]
fn the_number_of_generics_decides_whether_a_type_is_known() {
    let types = vec![record("List", external("List"), false)];
    let wanted = single_type("List", KindOfType::External, vec![number()]);
    let link = type_to_link_url(&wanted, &types, "/docs");
    assert_eq!(link.url, None);
    assert_eq!(link.diagnostic, Some(LinkDiagnostic::UnknownType("List".to_string())));
}

#[test]
fn the_index_is_linked_to_by_its_reserved_name() {
    let types = vec![record("Vec2", external("Vec2"), false)];
    let link = type_to_link_url(
        &single_type("index", KindOfType::External, Vec::new()),
        &types,
        "/docs",
    );
    assert_eq!(link.url.as_deref(), Some("/docs"));
    assert_eq!(link.diagnostic, None);
}

#[test]
fn an_ambiguous_name_takes_the_first_type_and_makes_one_finding() {
    let types = vec![
        record("Other", external("Other"), false),
        record("Twin", external("Twin"), true),
        record("Twin", external("Twin"), false),
        record("Twin", external("Twin"), false),
    ];
    let wanted = single_type("Twin", KindOfType::External, Vec::new());
    let link = type_to_link_url(&wanted, &types, "/docs");
    assert_eq!(link.url.as_deref(), Some("/docs/index.html"));
    let finding = link.diagnostic.expect("the name is ambiguous");
    assert_eq!(finding, LinkDiagnostic::AmbiguousType("Twin".to_string()));
    assert_eq!(finding.message(), "Multiple types with the same name: Twin");
    let again = type_to_link_url(&wanted, &types, "/docs");
    assert_eq!(again.url.as_deref(), Some("/docs/index.html"));
    assert_eq!(again.diagnostic, Some(LinkDiagnostic::AmbiguousType("Twin".to_string())));
}

#[test]
fn an_ambiguous_name_among_pages_takes_the_first_in_graph_order() {
    let types = vec![
        record("Twin", external("Twin"), false),
        record("Twin", external("Twin"), true),
    ];
    let wanted = single_type("Twin", KindOfType::External, Vec::new());
    let link = type_to_link_url(&wanted, &types, "/docs");
    assert_eq!(link.url.as_deref(), Some("/docs/Twin.html"));
    assert_eq!(link.diagnostic, Some(LinkDiagnostic::AmbiguousType("Twin".to_string())));
}

#[test]
fn resolving_twice_gives_the_same_link() {
    let types = vec![
        record("Vec2", external("Vec2"), false),
        TypeGenerator::Enum(EnumGenerator {
            name: "Color".to_string(),
            ty: external("Color"),
            variants: Vec::new(),
            type_doc: String::new(),
        }),
    ];
    for name in ["Vec2", "Color", "Nothing", "index"] {
        let wanted = single_type(name, KindOfType::External, Vec::new());
        let first = type_to_link_url(&wanted, &types, "/docs");
        let second = type_to_link_url(&wanted, &types, "/docs");
        assert_eq!(first, second);
    }
}

#[test]
fn a_type_that_is_referred_to_by_no_single_type_is_never_found() {
    let types = vec![record("Odd", Type::Array(Box::new(external("Odd"))), false)];
    let link =
        type_to_link_url(&single_type("Odd", KindOfType::External, Vec::new()), &types, "/docs");
    assert_eq!(link.url, None);
}

#[test]
fn file_names_are_sanitized() {
    assert_eq!(link_to_page("/docs", "Vec2"), "/docs/Vec2.html");
    assert_eq!(link_to_page("/docs", "a/b?c"), "/docs/abc.html");
    assert_eq!(link_to_page("docs/api", "My Type"), "docs/api/My Type.html");
    assert_eq!(link_to_index("docs"), "docs/index.html");
}

#[test]
fn a_dot_in_a_name_is_part_of_the_name() {
    assert_eq!(link_to_page("/docs", "std.io"), "/docs/std.io.html");
    assert_eq!(link_to_page("/docs", "std.fs"), "/docs/std.fs.html");
    assert_eq!(link_to_page("/docs", "v1.2"), "/docs/v1.2.html");
    assert_eq!(link_to_page("/docs", "page.html"), "/docs/page.html.html");
}

#[test]
fn a_type_with_a_dot_in_its_name_has_a_page_of_its_own() {
    let types = vec![
        record("a.b", external("a.b"), false),
        record("a.c", external("a.c"), false),
    ];
    let first =
        type_to_link_url(&single_type("a.b", KindOfType::External, Vec::new()), &types, "/docs");
    let second =
        type_to_link_url(&single_type("a.c", KindOfType::External, Vec::new()), &types, "/docs");
    assert_eq!(first.url.as_deref(), Some("/docs/a.b.html"));
    assert_eq!(second.url.as_deref(), Some("/docs/a.c.html"));
    assert_eq!(first.diagnostic, None);
}

#[test]
fn generics_of_a_single_type_are_itself_and_those_of_its_arguments() {
    let ty = Type::Single(single_type(
        "T",
        KindOfType::Generic,
        vec![
            generic("U"),
            Type::Single(single_type("List", KindOfType::External, vec![generic("T")])),
        ],
    ));
    let found = find_all_generics(&ty);
    assert_eq!(found.len(), 3);
    assert!(same_type(&found[0], &ty));
    assert_eq!(found[1], generic("U"));
    assert_eq!(found[2], generic("T"));
}

#[test]
fn generics_of_composed_types_come_from_left_to_right() {
    let ty = Type::Tuple(vec![
        Type::MapOf(MapRepresentation { key: Box::new(generic("K")), value: Box::new(generic("V")) }),
        Type::Or(vec![number(), generic("K")]),
        Type::Array(Box::new(Type::Variadic(Box::new(generic("A"))))),
    ]);
    let found = find_all_generics(&ty);
    assert_eq!(found, vec![generic("K"), generic("V"), generic("K"), generic("A")]);
}

#[test]
fn generics_of_a_function_are_counted_once() {
    let ty = Type::Function(FunctionRepresentation {
        params: vec![
            FunctionParam { param_name: Some("a".to_string()), ty: generic("T") },
            FunctionParam { param_name: None, ty: Type::Array(Box::new(generic("U"))) },
            FunctionParam { param_name: None, ty: number() },
        ],
        return_types: vec![generic("T"), external("Vec2"), generic("V")],
    });
    let found = find_all_generics(&ty);
    assert_eq!(found, vec![generic("T"), generic("U"), generic("V")]);
}

#[test]
fn a_function_does_not_look_into_generic_arguments() {
    let list_of_t = Type::Single(single_type("List", KindOfType::External, vec![generic("T")]));
    let ty = Type::Function(FunctionRepresentation {
        params: vec![FunctionParam { param_name: None, ty: list_of_t }],
        return_types: Vec::new(),
    });
    assert!(find_all_generics(&ty).is_empty());
    assert!(find_all_generics(&number()).is_empty());
}

use tealr_doc_gen::render_type::{render_type, RenderOptions};

fn render(ty: &Type, extra: &str) -> String {
    let options = RenderOptions {
        function: |held: FunctionRepresentation, extra: &str| {
            format!("function of {} with {}", held.params.len(), extra)
        },
        single: |held: SingleType, extra: &str| format!("single {} with {}", held.name, extra),
        map: |held: MapRepresentation, extra: &str| {
            format!("map from {:?} with {}", held.key, extra)
        },
        or: |held: Vec<Type>, extra: &str| format!("one of {} with {}", held.len(), extra),
        array: |held: Type, extra: &str| format!("array of {:?} with {}", held, extra),
        tuple: |held: Vec<Type>, extra: &str| format!("tuple of {} with {}", held.len(), extra),
        variadic: |held: Type, extra: &str| format!("many of {:?} with {}", held, extra),
    };
    render_type(ty, options, extra)
}

#[test]
fn a_type_is_rendered_by_the_function_for_its_shape() {
    let inner = Type::Single(single_type("n", KindOfType::Builtin, Vec::new()));
    let function = Type::Function(FunctionRepresentation {
        params: vec![FunctionParam { param_name: None, ty: number() }],
        return_types: Vec::new(),
    });
    assert_eq!(render(&function, "x"), "function of 1 with x");
    assert_eq!(render(&external("Vec2"), "y"), "single Vec2 with y");
    let map = Type::MapOf(MapRepresentation {
        key: Box::new(inner.clone()),
        value: Box::new(number()),
    });
    assert_eq!(render(&map, "z"), format!("map from {:?} with z", inner));
    assert_eq!(render(&Type::Or(vec![number(), number()]), "a"), "one of 2 with a");
    assert_eq!(
        render(&Type::Array(Box::new(inner.clone())), "b"),
        format!("array of {:?} with b", inner)
    );
    assert_eq!(render(&Type::Tuple(vec![number()]), "c"), "tuple of 1 with c");
    assert_eq!(
        render(&Type::Variadic(Box::new(inner.clone())), "d"),
        format!("many of {:?} with d", inner)
    );
}
