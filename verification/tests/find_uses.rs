use tealr_doc_gen::find_uses::{find_record_user, find_users};
use tealr_doc_gen::type_generator::{
    EnumGenerator, ExportedFunction, Field, RecordGenerator, TypeGenerator,
};
use tealr_doc_gen::type_model::{
    FunctionParam, FunctionRepresentation, KindOfType, MapRepresentation, SingleType, Type,
};
use tealr_doc_gen::type_walker::{GlobalInstance, TypeWalker};

fn single(name: &str, kind: KindOfType) -> Type {
    Type::Single(SingleType { name: name.to_string(), kind, generics: Vec::new() })
}

fn external(name: &str) -> Type {
    single(name, KindOfType::External)
}

fn number() -> Type {
    single("number", KindOfType::Builtin)
}

fn empty_record(name: &str) -> RecordGenerator {
    RecordGenerator {
        should_be_inlined: false,
        name: name.to_string(),
        ty: external(name),
        fields: Vec::new(),
        static_fields: Vec::new(),
        methods: Vec::new(),
        mut_methods: Vec::new(),
        functions: Vec::new(),
        mut_functions: Vec::new(),
        meta_method: Vec::new(),
        meta_method_mut: Vec::new(),
        meta_function: Vec::new(),
        meta_function_mut: Vec::new(),
        documentation: Vec::new(),
        type_doc: String::new(),
    }
}

fn record(name: &str, fields: Vec<Field>) -> TypeGenerator {
    let mut record = empty_record(name);
    record.fields = fields;
    TypeGenerator::Record(Box::new(record))
}

fn field(name: &str, ty: Type) -> Field {
    Field { name: name.to_string(), ty }
}

fn function(name: &str, params: Vec<Type>, return_types: Vec<Type>) -> ExportedFunction {
    ExportedFunction {
        name: name.to_string(),
        params: params.into_iter().map(|ty| FunctionParam { param_name: None, ty }).collect(),
        return_types,
        is_meta_method: false,
    }
}

fn walker(given_types: Vec<TypeGenerator>, globals: Vec<GlobalInstance>) -> TypeWalker {
    TypeWalker {
        version: "0.11.0".to_string(),
        given_types,
        global_instances_off: globals,
        extra_page: Vec::new(),
    }
}

fn vec2() -> TypeGenerator {
    record("Vec2", vec![field("x", number()), field("y", number())])
}

#[test]
fn vec2_is_used_by_transform_as_field() {
    let transform = record("Transform", vec![field("pos", external("Vec2"))]);
    let graph = walker(vec![vec2(), transform], Vec::new());
    let users = find_users(&graph.given_types[0], &graph);
    assert_eq!(users.len(), 1);
    assert_eq!(users[0].name, "Transform");
    assert_eq!(users[0].as_fields.len(), 1);
    assert_eq!(users[0].as_fields[0].name, "pos");
    assert_eq!(users[0].as_fields[0].signature, external("Vec2"));
    assert!(users[0].as_params.is_empty());
    assert!(users[0].as_return.is_empty());
}

#[test]
fn a_type_that_nothing_refers_to_has_no_users() {
    let transform = record("Transform", vec![field("pos", external("Vec2"))]);
    let graph = walker(vec![vec2(), transform], Vec::new());
    let users = find_users(&graph.given_types[1], &graph);
    assert!(users.is_empty());
}

#[test]
fn a_record_is_no_user_of_itself() {
    let list = record("List", vec![field("next", external("List"))]);
    let graph = walker(vec![list], Vec::new());
    assert!(find_users(&graph.given_types[0], &graph).is_empty());
}

#[test]
fn a_field_holds_the_type_inside_wrappers() {
    let nested = Type::Array(Box::new(Type::MapOf(MapRepresentation {
        key: Box::new(single("string", KindOfType::Builtin)),
        value: Box::new(Type::Or(vec![
            number(),
            Type::Tuple(vec![Type::Variadic(Box::new(external("Vec2")))]),
        ])),
    })));
    let holder = record("Holder", vec![field("plain", number()), field("deep", nested.clone())]);
    let graph = walker(vec![vec2(), holder], Vec::new());
    let users = find_users(&graph.given_types[0], &graph);
    assert_eq!(users.len(), 1);
    assert_eq!(users[0].as_fields.len(), 1);
    assert_eq!(users[0].as_fields[0].name, "deep");
    assert_eq!(users[0].as_fields[0].signature, nested);
}

#[test]
fn the_generic_arguments_of_a_single_type_are_not_searched() {
    let list_of_vec2 = Type::Single(SingleType {
        name: "List".to_string(),
        kind: KindOfType::External,
        generics: vec![external("Vec2")],
    });
    let holder = record("Holder", vec![field("items", list_of_vec2)]);
    let graph = walker(vec![vec2(), holder], Vec::new());
    assert!(find_users(&graph.given_types[0], &graph).is_empty());
}

#[test]
fn two_instantiations_of_a_generic_type_are_one_target() {
    let list = |argument: Type| {
        Type::Single(SingleType {
            name: "List".to_string(),
            kind: KindOfType::External,
            generics: vec![argument],
        })
    };
    let mut target = empty_record("List");
    target.ty = list(single("T", KindOfType::Generic));
    let holder = record(
        "Holder",
        vec![field("numbers", list(number())), field("names", list(external("Name")))],
    );
    let graph = walker(vec![TypeGenerator::Record(Box::new(target)), holder], Vec::new());
    let users = find_users(&graph.given_types[0], &graph);
    assert_eq!(users.len(), 1);
    let names: Vec<&str> = users[0].as_fields.iter().map(|x| x.name.as_str()).collect();
    assert_eq!(names, vec!["numbers", "names"]);
}

#[test]
fn functions_are_listed_by_parameter_and_by_result() {
    let mut user = empty_record("Space");
    user.functions = vec![
        function("scale", vec![external("Vec2"), external("Vec2")], vec![number()]),
        function("origin", vec![], vec![external("Vec2")]),
    ];
    user.mut_methods = vec![function("mirror", vec![external("Vec2")], vec![external("Vec2")])];
    user.meta_method = vec![function("__len", vec![number()], vec![number()])];
    let graph = walker(vec![vec2(), TypeGenerator::Record(Box::new(user))], Vec::new());
    let users = find_users(&graph.given_types[0], &graph);
    assert_eq!(users.len(), 1);
    let params: Vec<&str> = users[0].as_params.iter().map(|x| x.name.as_str()).collect();
    let results: Vec<&str> = users[0].as_return.iter().map(|x| x.name.as_str()).collect();
    assert_eq!(params, vec!["scale", "mirror"]);
    assert_eq!(results, vec!["origin", "mirror"]);
    assert!(users[0].as_fields.is_empty());
    assert_eq!(
        users[0].as_params[0].signature,
        Type::Function(FunctionRepresentation {
            params: vec![
                FunctionParam { param_name: None, ty: external("Vec2") },
                FunctionParam { param_name: None, ty: external("Vec2") },
            ],
            return_types: vec![number()],
        })
    );
}

#[test]
fn every_collection_of_functions_is_searched_in_its_order() {
    let takes = |name: &str| function(name, vec![external("Vec2")], vec![number()]);
    let gives = |name: &str| function(name, vec![number()], vec![external("Vec2")]);
    let mut user = empty_record("Space");
    user.meta_method_mut = vec![takes("p8"), gives("r8")];
    user.meta_method = vec![takes("p7"), gives("r7")];
    user.meta_function_mut = vec![takes("p6"), gives("r6")];
    user.meta_function = vec![takes("p5"), gives("r5")];
    user.mut_methods = vec![takes("p4"), gives("r4")];
    user.methods = vec![takes("p3"), gives("r3")];
    user.mut_functions = vec![takes("p2"), gives("r2")];
    user.functions = vec![takes("p1"), gives("r1")];
    let found = find_record_user(&user, "Vec2").expect("the record uses the type");
    let params: Vec<&str> = found.as_params.iter().map(|x| x.name.as_str()).collect();
    let results: Vec<&str> = found.as_return.iter().map(|x| x.name.as_str()).collect();
    assert_eq!(params, vec!["p1", "p2", "p3", "p4", "p5", "p6", "p7", "p8"]);
    assert_eq!(results, vec!["r1", "r2", "r3", "r4", "r5", "r6", "r7", "r8"]);
}

#[test]
fn static_fields_come_after_instance_fields() {
    let mut user = empty_record("Space");
    user.static_fields = vec![field("zero", external("Vec2"))];
    user.fields = vec![field("size", external("Vec2"))];
    let found = find_record_user(&user, "Vec2").expect("the record uses the type");
    let names: Vec<&str> = found.as_fields.iter().map(|x| x.name.as_str()).collect();
    assert_eq!(names, vec!["size", "zero"]);
    assert!(find_record_user(&user, "Vec3").is_none());
}

#[test]
fn users_follow_the_order_of_the_graph_and_globals_come_last() {
    let first = record("First", vec![field("a", external("Vec2"))]);
    let second = record("Second", vec![field("b", external("Vec2"))]);
    let globals = vec![
        GlobalInstance { name: "origin".to_string(), ty: external("Vec2"), doc: String::new() },
        GlobalInstance { name: "count".to_string(), ty: number(), doc: String::new() },
    ];
    let graph = walker(vec![second, vec2(), first], globals);
    let users = find_users(&graph.given_types[1], &graph);
    let names: Vec<&str> = users.iter().map(|x| x.name.as_str()).collect();
    assert_eq!(names, vec!["Second", "First", "global"]);
    assert_eq!(users[2].as_fields.len(), 1);
    assert_eq!(users[2].as_fields[0].name, "origin");
    assert!(users[2].as_params.is_empty());
    assert!(users[2].as_return.is_empty());
}

#[test]
fn an_enum_can_be_a_target_and_is_never_a_user() {
    let color = TypeGenerator::Enum(EnumGenerator {
        name: "Color".to_string(),
        ty: external("Color"),
        variants: vec!["red".to_string(), "Vec2".to_string()],
        type_doc: String::new(),
    });
    let pen = record("Pen", vec![field("color", external("Color"))]);
    let graph = walker(vec![vec2(), color, pen], Vec::new());
    let users = find_users(&graph.given_types[1], &graph);
    assert_eq!(users.len(), 1);
    assert_eq!(users[0].name, "Pen");
    assert!(find_users(&graph.given_types[0], &graph).is_empty());
}

#[test]
fn a_type_that_is_no_single_type_has_no_users() {
    let mut odd = empty_record("Odd");
    odd.ty = Type::Array(Box::new(external("Vec2")));
    let holder = record("Holder", vec![field("v", external("Vec2"))]);
    let graph = walker(vec![TypeGenerator::Record(Box::new(odd)), holder], Vec::new());
    assert!(find_users(&graph.given_types[0], &graph).is_empty());
}
