//! The module scenarios of the attribute's end-to-end checks, run through the parser.
use rust_to_wgsl::custom_types::get_custom_types;
use rust_to_wgsl::errors::WgslError;
use rust_to_wgsl::module_parser::parse_shader_module;
use rust_to_wgsl::syntax::{
    ArrayLen, Attribute, Block, Expr, Field, FieldValue, FnArg, GenericArgument, Item, ItemConst, ItemFn,
    ItemMod, ItemStruct, ItemType, Lit, Pat, PathArguments, PathSegment, RustPath, RustType, Stmt, UseTree,
};
use rust_to_wgsl::wgsl_components::WgslShaderModuleUserPortion;

fn seg(name: &str) -> PathSegment {
    PathSegment { ident: name.to_string(), arguments: PathArguments::NoArgs }
}

fn path(names: &[&str]) -> RustPath {
    RustPath { leading_colon: false, segments: names.iter().map(|n| seg(n)).collect() }
}

fn ty(name: &str) -> RustType {
    RustType::Path(path(&[name]))
}

fn array_ty(elem: RustType, n: &str) -> RustType {
    RustType::Array { elem: Box::new(elem), len: ArrayLen::Int(n.to_string()) }
}

fn name(n: &str) -> Expr {
    Expr::Path(path(&[n]))
}

fn float(n: &str) -> Expr {
    Expr::Lit(Lit::Float(n.to_string()))
}

fn int_lit(n: &str) -> Expr {
    Expr::Lit(Lit::Int(n.to_string()))
}

fn index(e: Expr, i: &str) -> Expr {
    Expr::Index { expr: Box::new(e), index: Box::new(int_lit(i)) }
}

fn bin(l: Expr, op: &str, r: Expr) -> Expr {
    Expr::Binary { left: Box::new(l), op: op.to_string(), right: Box::new(r) }
}

fn attr(n: &str) -> Attribute {
    Attribute { path: path(&[n]) }
}

fn field(n: &str, t: RustType) -> Field {
    Field { ident: Some(n.to_string()), ty: t }
}

fn strukt(attrs: Vec<Attribute>, n: &str, fields: Vec<Field>) -> Item {
    Item::Struct(ItemStruct { attrs, name: n.to_string(), fields, tokens: format!("struct {} {{ .. }}", n) })
}

fn alias(attrs: Vec<Attribute>, n: &str, t: RustType) -> Item {
    Item::Type(ItemType { attrs, name: n.to_string(), ty: t, tokens: format!("type {} = ..;", n) })
}

fn main_fn(stmts: Vec<Stmt>) -> Item {
    Item::Fn(ItemFn {
        name: "main".to_string(),
        inputs: vec![FnArg::Typed { pat: Pat::Ident("global_id".to_string()), ty: ty("WgslGlobalId") }],
        output: None,
        block: Block { stmts },
        tokens: "fn main(global_id: WgslGlobalId) { .. }".to_string(),
    })
}

fn helper_import() -> Item {
    Item::Use(UseTree::Path {
        ident: "shared".to_string(),
        tree: Box::new(UseTree::Path { ident: "wgsl_in_rust_helpers".to_string(), tree: Box::new(UseTree::Glob) }),
    })
}

fn macro_import(n: &str) -> Item {
    Item::Use(UseTree::Path { ident: "rust_to_wgsl".to_string(), tree: Box::new(UseTree::Name(n.to_string())) })
}

fn parsed(items: Vec<Item>) -> Result<WgslShaderModuleUserPortion, WgslError> {
    let m = ItemMod { name: "test_module".to_string(), visibility: "pub".to_string(), content: Some(items) };
    let allowed = get_custom_types(&m);
    parse_shader_module(&m, &allowed)
}

fn counts(u: &WgslShaderModuleUserPortion) -> [usize; 6] {
    [
        u.output_arrays.len(),
        u.input_arrays.len(),
        u.uniforms.len(),
        u.helper_functions.len(),
        u.static_consts.len(),
        u.helper_types.len(),
    ]
}

fn tstruct() -> Item {
    strukt(vec![], "TStruct", vec![field("x", ty("f32")), field("y", ty("f32"))])
}

fn ret() -> Stmt {
    Stmt::Expr { expr: Expr::Return(None), semi: true }
}

#[test]
fn scenario_simple_struct() {
    let u = parsed(vec![helper_import(), tstruct(), main_fn(vec![ret()])]).unwrap();
    assert_eq!(counts(&u), [0, 0, 0, 0, 0, 1]);
    assert_eq!(u.main_function.unwrap().code.wgsl_code, "fn main(@builtin(global_invocation_id) global_id: vec3<u32>) {\nreturn;\n}");
}

#[test]
fn scenario_struct_creation() {
    let lit = Expr::Struct {
        path: path(&["TStruct"]),
        fields: vec![
            FieldValue { member: "x".to_string(), expr: float("1.0") },
            FieldValue { member: "y".to_string(), expr: float("2.0") },
        ],
    };
    let body = vec![Stmt::Local { pat: Pat::Ident("obj".to_string()), init: Some(lit) }, ret()];
    let u = parsed(vec![helper_import(), tstruct(), main_fn(body)]).unwrap();
    assert_eq!(counts(&u), [0, 0, 0, 0, 0, 1]);
    assert_eq!(u.main_function.unwrap().code.wgsl_code, "fn main(@builtin(global_invocation_id) global_id: vec3<u32>) {\nlet obj = TStruct(1.0, 2.0);\nreturn;\n}");
}

#[test]
fn scenario_simple_type_transforms() {
    let s = strukt(vec![], "TStruct", vec![field("x", ty("f32")), field("y", ty("Vec3F32"))]);
    let u = parsed(vec![helper_import(), s, main_fn(vec![])]).unwrap();
    assert_eq!(counts(&u), [0, 0, 0, 0, 0, 1]);
    assert_eq!(u.helper_types[0].code.wgsl_code, "struct TStruct {\n    x: f32,\n    y: vec3<f32>\n}");
}

#[test]
fn scenario_struct_creation_with_nested_transforms() {
    let s = strukt(vec![], "TStruct", vec![field("x", ty("f32")), field("y", ty("Vec3F32"))]);
    let ctor = Expr::Call {
        func: Box::new(Expr::Path(path(&["Vec3F32", "new"]))),
        args: vec![float("2.0"), float("3.0"), float("4.0")],
    };
    let lit = Expr::Struct {
        path: path(&["TStruct"]),
        fields: vec![
            FieldValue { member: "x".to_string(), expr: float("1.0") },
            FieldValue { member: "y".to_string(), expr: ctor },
        ],
    };
    let body = vec![Stmt::Local { pat: Pat::Ident("obj".to_string()), init: Some(lit) }, ret()];
    let u = parsed(vec![helper_import(), s, main_fn(body)]).unwrap();
    assert_eq!(counts(&u), [0, 0, 0, 0, 0, 1]);
    assert_eq!(u.main_function.unwrap().code.wgsl_code, "fn main(@builtin(global_invocation_id) global_id: vec3<u32>) {\nlet obj = TStruct(1.0, vec3<f32>(2.0, 3.0, 4.0));\nreturn;\n}");
}

#[test]
fn scenario_type_alias() {
    let u = parsed(vec![helper_import(), alias(vec![], "MyType", ty("i32")), main_fn(vec![])]).unwrap();
    assert_eq!(counts(&u), [0, 0, 0, 0, 0, 1]);
    assert_eq!(u.helper_types[0].code.wgsl_code, "alias MyType = i32;");
}

#[test]
fn scenario_consts() {
    let c = Item::Const(ItemConst {
        name: "MY_CONST".to_string(),
        ty: ty("i32"),
        expr: int_lit("3"),
        tokens: "const MY_CONST: i32 = 3;".to_string(),
    });
    let u = parsed(vec![helper_import(), c, main_fn(vec![])]).unwrap();
    assert_eq!(counts(&u), [0, 0, 0, 0, 1, 0]);
    assert_eq!(u.static_consts[0].code.wgsl_code, "const MY_CONST: i32 = 3;");
}

#[test]
fn scenario_uniforms() {
    let s = strukt(vec![attr("wgsl_config")], "Uniforms", vec![field("time", ty("f32")), field("resolution", ty("Vec2F32"))]);
    let u = parsed(vec![macro_import("wgsl_config"), helper_import(), s, main_fn(vec![])]).unwrap();
    assert_eq!(counts(&u), [0, 0, 1, 0, 0, 0]);
    assert_eq!(u.uniforms[0].code.wgsl_code, "struct Uniforms {\n    time: f32,\n    resolution: vec2<f32>\n}");
}

#[test]
fn scenario_input_arrays() {
    let a = alias(vec![attr("wgsl_input_array")], "Position", array_ty(ty("f32"), "2"));
    let u = parsed(vec![macro_import("wgsl_input_array"), helper_import(), a, main_fn(vec![])]).unwrap();
    assert_eq!(counts(&u), [0, 1, 0, 0, 0, 0]);
    assert_eq!(u.input_arrays[0].array_type.code.wgsl_code, "alias position_input_array = array<Position, POSITION_INPUT_ARRAY_LENGTH>;");
    assert_eq!(u.input_arrays[0].item_type.code.wgsl_code, "alias Position = array<f32, 2>;");
}

fn collision(attr_name: &str) -> Item {
    strukt(vec![attr(attr_name)], "CollisionResult", vec![field("entity1", ty("u32")), field("entity2", ty("u32"))])
}

#[test]
fn scenario_output_arrays() {
    let u = parsed(vec![macro_import("wgsl_output_array"), helper_import(), collision("wgsl_output_array"), main_fn(vec![])])
        .unwrap();
    assert_eq!(counts(&u), [1, 0, 0, 0, 0, 0]);
    assert_eq!(u.output_arrays[0].item_type.code.wgsl_code, "struct CollisionResult {\n    entity1: u32,\n    entity2: u32\n}");
    assert_eq!(u.output_arrays[0].array_type.code.wgsl_code, "alias collisionresult_output_array = array<CollisionResult, COLLISIONRESULT_OUTPUT_ARRAY_LENGTH>;");
    assert!(u.output_arrays[0].atomic_counter_name.is_none());
}

#[test]
fn scenario_output_vec() {
    let u = parsed(vec![macro_import("wgsl_output_vec"), helper_import(), collision("wgsl_output_vec"), main_fn(vec![])])
        .unwrap();
    assert_eq!(counts(&u), [1, 0, 0, 0, 0, 0]);
    assert_eq!(u.output_arrays[0].item_type.code.wgsl_code, "struct CollisionResult {\n    entity1: u32,\n    entity2: u32\n}");
    assert_eq!(u.output_arrays[0].array_type.code.wgsl_code, "alias collisionresult_output_array = array<CollisionResult, COLLISIONRESULT_OUTPUT_ARRAY_LENGTH>;");
    assert_eq!(u.output_arrays[0].atomic_counter_name, Some("collisionresult_counter".to_string()));
}

#[test]
fn scenario_helper_functions() {
    let p = |n: &str| FnArg::Typed { pat: Pat::Ident(n.to_string()), ty: array_ty(ty("f32"), "2") };
    let diff = |i: &str| bin(index(name("p1"), i), "-", index(name("p2"), i));
    let body = vec![
        Stmt::Local { pat: Pat::Ident("dx".to_string()), init: Some(diff("0")) },
        Stmt::Local { pat: Pat::Ident("dy".to_string()), init: Some(diff("1")) },
        Stmt::Expr {
            expr: Expr::Return(Some(Box::new(bin(bin(name("dx"), "*", name("dx")), "+", bin(name("dy"), "*", name("dy")))))),
            semi: true,
        },
    ];
    let f = Item::Fn(ItemFn {
        name: "calculate_distance_squared".to_string(),
        inputs: vec![p("p1"), p("p2")],
        output: Some(ty("f32")),
        block: Block { stmts: body },
        tokens: "fn calculate_distance_squared(..) -> f32 { .. }".to_string(),
    });
    let u = parsed(vec![helper_import(), f, main_fn(vec![])]).unwrap();
    assert_eq!(counts(&u), [0, 0, 0, 1, 0, 0]);
    assert_eq!(u.helper_functions[0].code.wgsl_code, "fn calculate_distance_squared(p1: array<f32, 2>, p2: array<f32, 2>) -> f32 {\nlet dx = (p1[0] - p2[0]);\nlet dy = (p1[1] - p2[1]);\nreturn ((dx * dx) + (dy * dy));\n}");
}

#[test]
fn ascii_type_names_get_their_case_forms() {
    let n = rust_to_wgsl::custom_type_name::CustomTypeName::new(&"CollisionResult".to_string());
    assert_eq!(n.upper, "COLLISIONRESULT");
    assert_eq!(n.lower, "collisionresult");
}
