use rust_to_wgsl::custom_types::{get_custom_types, AllowedRustTypes, CustomTypeKind};
use rust_to_wgsl::errors::WgslError;
use rust_to_wgsl::expanded_module::{generate_expanded_module, wgsl_shader_module_user_portion};
use rust_to_wgsl::module_parser::parse_shader_module;
use rust_to_wgsl::push_calls::needs_atomic_counter;
use rust_to_wgsl::syntax::{
    ArrayLen, Attribute, Block, Expr, ExprKind, Field, FieldValue, FnArg, GenericArgument, Item,
    ItemConst, ItemFn, ItemMod, ItemStruct, ItemType, Lit, Pat, PathArguments, PathSegment,
    RustPath, RustType, Stmt, UseTree,
};
use rust_to_wgsl::wgsl_shader_module_lib_portion::WgslShaderModuleLibraryPortion;
use rust_to_wgsl::use_statements::{handle_use_statements, is_valid_use_statement};
use rust_to_wgsl::validation::{check_expr_for_global_id_assignment, validate_main_function};
use rust_to_wgsl::wgsl_exprs::expr_to_wgsl;
use rust_to_wgsl::wgsl_items::{
    format_const_as_wgsl, format_function_as_wgsl, format_main_function, format_struct_as_wgsl,
    type_def_to_wgsl,
};
use rust_to_wgsl::wgsl_types::{convert_rust_type_to_wgsl, convert_type_to_wgsl, rust_handle_path_segment, type_to_wgsl};

fn seg(name: &str) -> PathSegment {
    PathSegment { ident: name.to_string(), arguments: PathArguments::NoArgs }
}

fn path(names: &[&str]) -> RustPath {
    RustPath { leading_colon: false, segments: names.iter().map(|n| seg(n)).collect() }
}

fn ty(name: &str) -> RustType {
    RustType::Path(path(&[name]))
}

fn generic_ty(name: &str, arg: RustType) -> RustType {
    RustType::Path(RustPath {
        leading_colon: false,
        segments: vec![PathSegment {
            ident: name.to_string(),
            arguments: PathArguments::AngleBracketed(vec![GenericArgument::Type(arg)]),
        }],
    })
}

fn array_ty(elem: RustType, n: &str) -> RustType {
    RustType::Array { elem: Box::new(elem), len: ArrayLen::Int(n.to_string()) }
}

fn name(n: &str) -> Expr {
    Expr::Path(path(&[n]))
}

fn int_lit(n: &str) -> Expr {
    Expr::Lit(Lit::Int(n.to_string()))
}

fn float(n: &str) -> Expr {
    Expr::Lit(Lit::Float(n.to_string()))
}

fn bin(l: Expr, op: &str, r: Expr) -> Expr {
    Expr::Binary { left: Box::new(l), op: op.to_string(), right: Box::new(r) }
}

fn call(func: Expr, args: Vec<Expr>) -> Expr {
    Expr::Call { func: Box::new(func), args }
}

fn helper_call(module: &str, method: &str, t: &str, args: Vec<Expr>) -> Expr {
    let generic = PathSegment {
        ident: method.to_string(),
        arguments: PathArguments::AngleBracketed(vec![GenericArgument::Type(ty(t))]),
    };
    call(Expr::Path(RustPath { leading_colon: false, segments: vec![seg(module), generic] }), args)
}

fn let_stmt(n: &str, e: Expr) -> Stmt {
    Stmt::Local { pat: Pat::Ident(n.to_string()), init: Some(e) }
}

fn expr_stmt(e: Expr, semi: bool) -> Stmt {
    Stmt::Expr { expr: e, semi }
}

fn attr(n: &str) -> Attribute {
    Attribute { path: path(&[n]) }
}

fn field(n: &str, t: RustType) -> Field {
    Field { ident: Some(n.to_string()), ty: t }
}

fn item_struct(attrs: Vec<Attribute>, n: &str, fields: Vec<Field>) -> ItemStruct {
    ItemStruct { attrs, name: n.to_string(), fields, tokens: format!("struct {} {{ .. }}", n) }
}

fn item_type(attrs: Vec<Attribute>, n: &str, t: RustType) -> ItemType {
    ItemType { attrs, name: n.to_string(), ty: t, tokens: format!("type {} = ..;", n) }
}

fn param(n: &str, t: RustType) -> FnArg {
    FnArg::Typed { pat: Pat::Ident(n.to_string()), ty: t }
}

fn item_fn(n: &str, inputs: Vec<FnArg>, output: Option<RustType>, stmts: Vec<Stmt>) -> ItemFn {
    ItemFn { name: n.to_string(), inputs, output, block: Block { stmts }, tokens: format!("fn {}() {{ .. }}", n) }
}

fn main_fn(stmts: Vec<Stmt>) -> ItemFn {
    item_fn("main", vec![param("global_id", ty("WgslGlobalId"))], None, stmts)
}

fn helper_use() -> Item {
    Item::Use(UseTree::Path {
        ident: "shared".to_string(),
        tree: Box::new(UseTree::Path {
            ident: "wgsl_in_rust_helpers".to_string(),
            tree: Box::new(UseTree::Glob),
        }),
    })
}

fn module(items: Vec<Item>) -> ItemMod {
    ItemMod { name: "test_module".to_string(), visibility: "pub".to_string(), content: Some(items) }
}

fn no_custom() -> Vec<String> {
    vec![]
}

fn parse(m: &ItemMod) -> Result<rust_to_wgsl::wgsl_components::WgslShaderModuleUserPortion, WgslError> {
    let allowed = get_custom_types(m);
    parse_shader_module(m, &allowed)
}

#[test]
fn type_conversions() {
    let custom = vec!["Particle".to_string()];
    assert_eq!(type_to_wgsl(&ty("f32"), &custom), Ok("f32".to_string()));
    assert_eq!(type_to_wgsl(&ty("Vec3F32"), &custom), Ok("vec3<f32>".to_string()));
    assert_eq!(type_to_wgsl(&ty("Mat2x4Bool"), &custom), Ok("mat2x4<bool>".to_string()));
    assert_eq!(type_to_wgsl(&ty("Particle"), &custom), Ok("Particle".to_string()));
    assert_eq!(type_to_wgsl(&ty("PodF16"), &custom), Ok("f16".to_string()));
    assert_eq!(type_to_wgsl(&ty("Mat3"), &custom), Err(WgslError::UnsupportedType("Mat3".to_string())));
    assert_eq!(
        type_to_wgsl(&generic_ty("Vec2", ty("u32")), &custom),
        Err(WgslError::UnsupportedType("Vec2".to_string()))
    );
    assert_eq!(
        type_to_wgsl(&generic_ty("atomic", ty("u32")), &custom),
        Ok("atomic<u32>".to_string())
    );
    assert_eq!(
        type_to_wgsl(&array_ty(ty("Vec2I32"), "8"), &custom),
        Ok("array<vec2<i32>, 8>".to_string())
    );
}

#[test]
fn user_types_keep_their_generic_arguments() {
    let custom = vec!["Pair".to_string()];
    assert_eq!(type_to_wgsl(&generic_ty("Pair", ty("Vec2F32")), &custom), Ok("Pair<vec2<f32>>".to_string()));
}

#[test]
fn item_formatter_type_conversions() {
    assert_eq!(
        convert_type_to_wgsl(&array_ty(generic_ty("Vec3", ty("f32")), "4")),
        Ok("array<vec3<f32>, 4>".to_string())
    );
    assert_eq!(convert_type_to_wgsl(&ty("u32")), Ok("u32".to_string()));
    assert_eq!(convert_type_to_wgsl(&ty("MyType")), Ok("MyType".to_string()));
    assert_eq!(convert_type_to_wgsl(&ty("Vec4")), Err(WgslError::VectorWithoutElementType));
    assert_eq!(convert_type_to_wgsl(&RustType::Tuple(vec![])), Err(WgslError::UnsupportedTypeKind));
}

#[test]
fn item_level_type_conversions() {
    assert_eq!(convert_rust_type_to_wgsl(&ty("f32")), Ok("f32".to_string()));
    assert_eq!(convert_rust_type_to_wgsl(&ty("MyType")), Ok("MyType".to_string()));
    assert_eq!(convert_rust_type_to_wgsl(&ty("Vec3F32")), Ok("Vec3F32".to_string()));
    assert_eq!(convert_rust_type_to_wgsl(&ty("Mat3")), Ok("mat3x3".to_string()));
    assert_eq!(convert_rust_type_to_wgsl(&generic_ty("Vec2", ty("u32"))), Ok("vec2<u32>".to_string()));
    assert_eq!(
        convert_rust_type_to_wgsl(&array_ty(generic_ty("Vec4", ty("f32")), "3")),
        Ok("array<vec4<f32>, 3>".to_string())
    );
    assert_eq!(rust_handle_path_segment(&seg("MyType")), Ok("MyType".to_string()));
    assert_eq!(convert_rust_type_to_wgsl(&ty("u8")), Err(WgslError::NonWgslNumeric));
    assert_eq!(convert_rust_type_to_wgsl(&ty("Vec3")), Err(WgslError::VectorWithoutElementType));
    assert_eq!(convert_rust_type_to_wgsl(&generic_ty("Vec", ty("u32"))), Err(WgslError::VecType));
    assert_eq!(convert_rust_type_to_wgsl(&RustType::Tuple(vec![])), Err(WgslError::TupleType));
}

#[test]
fn type_errors() {
    let c = no_custom();
    assert_eq!(type_to_wgsl(&ty("Foo"), &c), Err(WgslError::UnsupportedType("Foo".to_string())));
    assert_eq!(type_to_wgsl(&RustType::Other, &c), Err(WgslError::UnsupportedTypeKind));
    assert_eq!(type_to_wgsl(&ty("f16"), &c), Err(WgslError::F16NotPod));
    assert_eq!(type_to_wgsl(&ty("u8"), &c), Err(WgslError::UnsupportedType("u8".to_string())));
    assert_eq!(type_to_wgsl(&RustType::Slice(Box::new(ty("u32"))), &c), Err(WgslError::SliceType));
    assert_eq!(type_to_wgsl(&RustType::Tuple(vec![]), &c), Err(WgslError::TupleType));
    let other_arg = RustType::Path(RustPath {
        leading_colon: false,
        segments: vec![PathSegment {
            ident: "vec2".to_string(),
            arguments: PathArguments::AngleBracketed(vec![GenericArgument::Other]),
        }],
    });
    assert_eq!(type_to_wgsl(&other_arg, &c), Err(WgslError::UnsupportedGenericArgument));
    let not_int = RustType::Array { elem: Box::new(ty("u32")), len: ArrayLen::OtherLit };
    assert_eq!(type_to_wgsl(&not_int, &c), Err(WgslError::ArrayLengthNotInteger));
    let not_const = RustType::Array { elem: Box::new(ty("u32")), len: ArrayLen::NonLiteral };
    assert_eq!(type_to_wgsl(&not_const, &c), Err(WgslError::ArrayLengthNotConstant));
    let empty = RustType::Path(RustPath { leading_colon: false, segments: vec![] });
    assert_eq!(type_to_wgsl(&empty, &c), Err(WgslError::EmptyPath));
}

#[test]
fn expression_conversions() {
    let literal = Expr::Struct {
        path: path(&["TStruct"]),
        fields: vec![
            FieldValue { member: "x".to_string(), expr: float("1.0") },
            FieldValue {
                member: "y".to_string(),
                expr: call(Expr::Path(path(&["Vec3F32", "new"])), vec![float("2.0"), float("3.0"), float("4.0")]),
            },
        ],
    };
    assert_eq!(expr_to_wgsl(&literal), Ok("TStruct(1.0, vec3<f32>(2.0, 3.0, 4.0))".to_string()));
    let sum = bin(bin(name("dx"), "*", name("dx")), "+", bin(name("dy"), "*", name("dy")));
    assert_eq!(expr_to_wgsl(&sum), Ok("((dx * dx) + (dy * dy))".to_string()));
    let access = Expr::Index {
        expr: Box::new(Expr::Field { base: Box::new(name("p")), member: "v".to_string() }),
        index: Box::new(int_lit("0")),
    };
    assert_eq!(expr_to_wgsl(&access), Ok("p.v[0]".to_string()));
    let branch = Expr::If {
        cond: Box::new(name("c")),
        then_branch: Block { stmts: vec![expr_stmt(Expr::Return(None), true)] },
        else_branch: Some(Box::new(Expr::Block(Block { stmts: vec![expr_stmt(Expr::Break(None), true)] }))),
    };
    assert_eq!(expr_to_wgsl(&branch), Ok("if (c) { return; } else { break; }".to_string()));
    let negation = Expr::Unary { op: "!".to_string(), expr: Box::new(Expr::Lit(Lit::Bool(true))) };
    assert_eq!(expr_to_wgsl(&negation), Ok("(! true)".to_string()));
    let looped = Expr::While { cond: Box::new(name("go")), body: Block { stmts: vec![expr_stmt(Expr::Continue, true)] } };
    assert_eq!(expr_to_wgsl(&looped), Ok("while (go) { continue; }".to_string()));
    let reference = Expr::Reference { mutable: false, expr: Box::new(name("c")) };
    assert_eq!(expr_to_wgsl(&reference), Ok("&c".to_string()));
    assert_eq!(expr_to_wgsl(&Expr::Paren(Box::new(name("a")))), Ok("(a)".to_string()));
}

#[test]
fn expression_errors() {
    assert_eq!(expr_to_wgsl(&Expr::Lit(Lit::Other("\"s\"".to_string()))), Err(WgslError::UnsupportedLiteral));
    assert_eq!(expr_to_wgsl(&Expr::Array(vec![int_lit("1")])), Err(WgslError::ArrayLiteral));
    assert_eq!(
        expr_to_wgsl(&Expr::Unsupported(ExprKind::Match)),
        Err(WgslError::UnsupportedExpression(ExprKind::Match))
    );
    let for_loop = Expr::ForLoop { pat: Pat::Ident("x".to_string()), expr: Box::new(name("xs")), body: Block { stmts: vec![] } };
    assert_eq!(expr_to_wgsl(&for_loop), Err(WgslError::UnsupportedForLoop));
    let open_range = Expr::Range { start: Some(Box::new(int_lit("0"))), end: None, closed: false };
    let open_for = Expr::ForLoop { pat: Pat::Ident("i".to_string()), expr: Box::new(open_range), body: Block { stmts: vec![] } };
    assert_eq!(expr_to_wgsl(&open_for), Err(WgslError::UnsupportedForLoop));
    let range = Expr::Range { start: Some(Box::new(int_lit("0"))), end: Some(Box::new(int_lit("3"))), closed: false };
    assert_eq!(expr_to_wgsl(&range), Err(WgslError::UnsupportedExpression(ExprKind::Range)));
    let tuple_for = Expr::ForLoop { pat: Pat::Other, expr: Box::new(range), body: Block { stmts: vec![] } };
    assert_eq!(expr_to_wgsl(&tuple_for), Err(WgslError::UnsupportedForLoop));
    assert_eq!(expr_to_wgsl(&Expr::Path(path(&["a", "b"]))), Err(WgslError::ComplexPath));
    let no_path = Expr::Struct { path: RustPath { leading_colon: false, segments: vec![] }, fields: vec![] };
    assert_eq!(expr_to_wgsl(&no_path), Err(WgslError::EmptyPath));
    let mutable = Expr::Reference { mutable: true, expr: Box::new(name("a")) };
    assert_eq!(expr_to_wgsl(&mutable), Err(WgslError::MutableReference));
    let item_stmt = Expr::Block(Block { stmts: vec![Stmt::Item] });
    assert_eq!(expr_to_wgsl(&item_stmt), Err(WgslError::UnsupportedStatement));
    let pattern = Expr::Block(Block { stmts: vec![Stmt::Local { pat: Pat::Other, init: None }] });
    assert_eq!(expr_to_wgsl(&pattern), Err(WgslError::UnsupportedVariablePattern));
}

#[test]
fn item_conversions() {
    let c = no_custom();
    let s = item_struct(vec![], "TStruct", vec![field("x", ty("f32")), field("y", ty("Vec3F32"))]);
    assert_eq!(format_struct_as_wgsl(&s, &c), Ok("struct TStruct {\n    x: f32,\n    y: vec3<f32>\n}".to_string()));
    let alias = item_type(vec![], "MyType", ty("i32"));
    assert_eq!(type_def_to_wgsl(&alias, &c), Ok("alias MyType = i32;".to_string()));
    let k = ItemConst { name: "MY_CONST".to_string(), ty: ty("i32"), expr: int_lit("3"), tokens: String::new() };
    assert_eq!(format_const_as_wgsl(&k, &c), Ok("const MY_CONST: i32 = 3;".to_string()));
    let f = item_fn(
        "calculate_distance_squared",
        vec![param("p1", array_ty(ty("f32"), "2")), param("p2", array_ty(ty("f32"), "2"))],
        Some(ty("f32")),
        vec![
            let_stmt("dx", bin(Expr::Index { expr: Box::new(name("p1")), index: Box::new(int_lit("0")) }, "-", Expr::Index { expr: Box::new(name("p2")), index: Box::new(int_lit("0")) })),
            expr_stmt(Expr::Return(Some(Box::new(bin(name("dx"), "*", name("dx"))))), true),
        ],
    );
    assert_eq!(
        format_function_as_wgsl(&f, &c),
        Ok("fn calculate_distance_squared(p1: array<f32, 2>, p2: array<f32, 2>) -> f32 {\nlet dx = (p1[0] - p2[0]);\nreturn (dx * dx);\n}".to_string())
    );
    let m = main_fn(vec![expr_stmt(Expr::Return(None), true)]);
    assert_eq!(
        format_main_function(&m),
        Ok("fn main(@builtin(global_invocation_id) global_id: vec3<u32>) {\nreturn;\n}".to_string())
    );
}

#[test]
fn item_errors() {
    let c = no_custom();
    let alias = item_type(vec![], "MyAlias", ty("Vec3F32"));
    assert_eq!(type_def_to_wgsl(&alias, &c), Err(WgslError::AliasOfHelperType));
    let tuple_struct = item_struct(vec![], "T", vec![Field { ident: None, ty: ty("f32") }]);
    assert_eq!(format_struct_as_wgsl(&tuple_struct, &c), Err(WgslError::UnnamedStructField));
    let pattern = item_fn("f", vec![FnArg::Typed { pat: Pat::Other, ty: ty("f32") }], None, vec![]);
    assert_eq!(format_function_as_wgsl(&pattern, &c), Err(WgslError::UnsupportedParameterPattern));
    let receiver = item_fn("f", vec![FnArg::Receiver], None, vec![]);
    assert_eq!(format_function_as_wgsl(&receiver, &c), Err(WgslError::UnsupportedParameterType));
}

#[test]
fn main_function_rules() {
    let none = item_fn("main", vec![], None, vec![]);
    assert_eq!(validate_main_function(&none), Err(WgslError::MainParameterCount));
    let wrong = item_fn("main", vec![param("id", ty("u32"))], None, vec![]);
    assert_eq!(validate_main_function(&wrong), Err(WgslError::MainParameterType));
    let returns = item_fn("main", vec![param("id", ty("WgslGlobalId"))], Some(ty("u32")), vec![]);
    assert_eq!(validate_main_function(&returns), Err(WgslError::MainReturnType));
    let assigns = main_fn(vec![expr_stmt(Expr::Assign { left: Box::new(name("global_id")), right: Box::new(name("x")) }, true)]);
    assert_eq!(validate_main_function(&assigns), Err(WgslError::GlobalIdAssignment));
    let component = Expr::Field { base: Box::new(name("global_id")), member: "x".to_string() };
    let assigns_x = main_fn(vec![expr_stmt(Expr::Assign { left: Box::new(component), right: Box::new(int_lit("0")) }, true)]);
    assert_eq!(validate_main_function(&assigns_x), Err(WgslError::GlobalIdComponentAssignment));
    let reads = main_fn(vec![let_stmt("x", Expr::Field { base: Box::new(name("global_id")), member: "x".to_string() })]);
    assert_eq!(validate_main_function(&reads), Ok(()));
    let nested = call(name("f"), vec![Expr::Assign { left: Box::new(name("global_id")), right: Box::new(int_lit("1")) }]);
    assert_eq!(check_expr_for_global_id_assignment(&nested), Err(WgslError::GlobalIdAssignment));
}

#[test]
fn use_statement_rules() {
    let helper = UseTree::Path {
        ident: "shared".to_string(),
        tree: Box::new(UseTree::Path { ident: "wgsl_in_rust_helpers".to_string(), tree: Box::new(UseTree::Glob) }),
    };
    assert!(is_valid_use_statement(&helper, "wgsl_in_rust_helpers"));
    let named = UseTree::Path { ident: "shared".to_string(), tree: Box::new(UseTree::Name("wgsl_in_rust_helpers".to_string())) };
    assert!(is_valid_use_statement(&named, "wgsl_in_rust_helpers"));
    let other = UseTree::Path { ident: "std".to_string(), tree: Box::new(UseTree::Path { ident: "mem".to_string(), tree: Box::new(UseTree::Glob) }) };
    assert!(!is_valid_use_statement(&other, "wgsl_in_rust_helpers"));
    let bare = UseTree::Name("wgsl_in_rust_helpers".to_string());
    assert!(!is_valid_use_statement(&bare, "wgsl_in_rust_helpers"));
    assert_eq!(handle_use_statements(&vec![helper_use()]), Ok(vec![]));
    assert_eq!(
        handle_use_statements(&vec![Item::Use(other)]),
        Err(WgslError::InvalidUseStatement)
    );
    assert_eq!(handle_use_statements(&vec![helper_use(), helper_use()]), Err(WgslError::DuplicateUseStatement));
}

/// The collision module of the README, in the library's syntax model.
fn collision_module() -> ItemMod {
    let main_body = vec![
        let_stmt("current", Expr::Field { base: Box::new(name("global_id")), member: "x".to_string() }),
        let_stmt("radius", helper_call("WgslVecInput", "vec_val", "Radius", vec![name("current")])),
        expr_stmt(
            Expr::If {
                cond: Box::new(bin(name("current"), ">=", helper_call("WgslVecInput", "vec_len", "Position", vec![]))),
                then_branch: Block { stmts: vec![expr_stmt(Expr::Return(None), true)] },
                else_branch: None,
            },
            false,
        ),
        expr_stmt(
            helper_call(
                "WgslOutput",
                "push",
                "CollisionResult",
                vec![Expr::Struct {
                    path: path(&["CollisionResult"]),
                    fields: vec![
                        FieldValue { member: "entity1".to_string(), expr: name("current") },
                        FieldValue { member: "entity2".to_string(), expr: name("current") },
                    ],
                }],
            ),
            true,
        ),
    ];
    module(vec![
        helper_use(),
        Item::Const(ItemConst { name: "SCALE".to_string(), ty: ty("f32"), expr: float("2.0"), tokens: "const SCALE: f32 = 2.0;".to_string() }),
        Item::Struct(item_struct(vec![attr("wgsl_config")], "Uniforms", vec![field("time", ty("f32"))])),
        Item::Type(item_type(vec![attr("wgsl_input_array")], "Position", array_ty(ty("f32"), "2"))),
        Item::Type(item_type(vec![attr("wgsl_input_array")], "Radius", ty("f32"))),
        Item::Struct(item_struct(vec![attr("wgsl_output_vec")], "CollisionResult", vec![field("entity1", ty("u32")), field("entity2", ty("u32"))])),
        Item::Struct(item_struct(vec![attr("wgsl_output_array")], "Cell", vec![field("d", ty("f32"))])),
        Item::Struct(item_struct(vec![], "Helper", vec![field("v", ty("Vec2F32"))])),
        Item::Fn(item_fn("double", vec![param("a", ty("f32"))], Some(ty("f32")), vec![expr_stmt(bin(name("a"), "*", float("2.0")), false)])),
        Item::Fn(main_fn(main_body)),
    ])
}

#[test]
fn custom_types_of_a_module() {
    let allowed = get_custom_types(&collision_module());
    let kinds: Vec<(String, CustomTypeKind)> =
        allowed.custom_types.iter().map(|t| (t.name.name.clone(), t.kind)).collect();
    assert_eq!(
        kinds,
        vec![
            ("Uniforms".to_string(), CustomTypeKind::Uniform),
            ("Position".to_string(), CustomTypeKind::InputArray),
            ("Radius".to_string(), CustomTypeKind::InputArray),
            ("CollisionResult".to_string(), CustomTypeKind::OutputVec),
            ("Cell".to_string(), CustomTypeKind::OutputArray),
            ("Helper".to_string(), CustomTypeKind::GpuOnlyHelperType),
        ]
    );
    assert_eq!(allowed.wgsl_native_types.len(), 65);
    assert_eq!(allowed.lib_helper_types[1], "WgslGlobalId");
    let fresh = AllowedRustTypes::new(vec![]);
    assert!(fresh.custom_types.is_empty());
    assert_eq!(fresh.wgsl_native_types[0], "Vec2I32");
}

#[test]
fn parsing_a_module() {
    let u = wgsl_shader_module_user_portion(collision_module()).unwrap();
    let declared = get_custom_types(&collision_module()).custom_types.len();
    assert_eq!(
        u.helper_types.len() + u.uniforms.len() + u.input_arrays.len() + u.output_arrays.len(),
        declared
    );
    assert_eq!(u.static_consts.len(), 1);
    assert_eq!(u.static_consts[0].code.wgsl_code, "const SCALE: f32 = 2.0;");
    assert_eq!(u.static_consts[0].code.rust_code, "const SCALE: f32 = 2.0;");
    assert_eq!(u.uniforms.len(), 1);
    assert_eq!(u.uniforms[0].code.wgsl_code, "struct Uniforms {\n    time: f32\n}");
    assert_eq!(u.input_arrays.len(), 2);
    assert_eq!(u.input_arrays[0].item_type.code.wgsl_code, "alias Position = array<f32, 2>;");
    assert_eq!(
        u.input_arrays[0].array_type.code.wgsl_code,
        "alias position_input_array = array<Position, POSITION_INPUT_ARRAY_LENGTH>;"
    );
    assert_eq!(u.input_arrays[1].item_type.code.wgsl_code, "alias Radius = f32;");
    assert_eq!(u.output_arrays.len(), 2);
    assert_eq!(
        u.output_arrays[0].array_type.code.wgsl_code,
        "alias collisionresult_output_array = array<CollisionResult, COLLISIONRESULT_OUTPUT_ARRAY_LENGTH>;"
    );
    assert_eq!(u.output_arrays[0].atomic_counter_name, Some("collisionresult_counter".to_string()));
    assert_eq!(u.output_arrays[1].atomic_counter_name, None);
    assert_eq!(u.helper_types.len(), 1);
    assert_eq!(u.helper_types[0].code.wgsl_code, "struct Helper {\n    v: vec2<f32>\n}");
    assert_eq!(u.helper_functions.len(), 1);
    assert_eq!(u.helper_functions[0].code.wgsl_code, "fn double(a: f32) -> f32 {\n(a * 2.0)\n}");
    let main = u.main_function.unwrap();
    assert_eq!(
        main.code.wgsl_code,
        "fn main(@builtin(global_invocation_id) global_id: vec3<u32>) {\nlet current = global_id.x;\nlet radius = radius_input_array[current];\nif ((current >= POSITION_INPUT_ARRAY_LENGTH)) { return; }\nlet collisionresult_output_array_index = atomicAdd(&collisionresult_counter, 1u);\nif ((collisionresult_output_array_index < COLLISIONRESULT_OUTPUT_ARRAY_LENGTH)) { collisionresult_output_array[collisionresult_output_array_index] = CollisionResult(current, current); };\n}"
    );
}

#[test]
fn module_errors() {
    let bodiless = ItemMod { name: "m".to_string(), visibility: String::new(), content: None };
    assert_eq!(parse(&bodiless), Err(WgslError::NoModuleBody));
    let no_main = module(vec![helper_use()]);
    assert_eq!(parse(&no_main), Err(WgslError::NoMainFunction));
    let two_mains = module(vec![Item::Fn(main_fn(vec![])), Item::Fn(main_fn(vec![]))]);
    assert_eq!(parse(&two_mains), Err(WgslError::MultipleMainFunctions));
    let other = module(vec![Item::Other, Item::Fn(main_fn(vec![]))]);
    assert_eq!(parse(&other), Err(WgslError::UnsupportedItem));
    let bad_use = module(vec![
        Item::Use(UseTree::Path { ident: "std".to_string(), tree: Box::new(UseTree::Glob) }),
        Item::Fn(main_fn(vec![])),
    ]);
    assert_eq!(parse(&bad_use), Err(WgslError::InvalidUseStatement));
    // The first error in source order wins.
    let first = module(vec![
        Item::Struct(item_struct(vec![], "T", vec![Field { ident: None, ty: ty("f32") }])),
        Item::Other,
        Item::Fn(main_fn(vec![])),
    ]);
    assert_eq!(parse(&first), Err(WgslError::UnnamedStructField));
}

#[test]
fn expanded_module_code() {
    let code = generate_expanded_module(collision_module()).unwrap();
    assert!(code.starts_with("pub mod test_module {\n    use rust_to_wgsl::wgsl_components::*;"));
    assert!(code.contains("main_function: Some(WgslFunction { name: (\"main\").to_string()"));
    let bad = module(vec![]);
    assert_eq!(generate_expanded_module(bad), Err(WgslError::NoMainFunction));
}

#[test]
fn push_calls_need_counters() {
    let m = collision_module();
    let result = item_struct(vec![], "CollisionResult", vec![]);
    let cell = item_struct(vec![], "Cell", vec![]);
    assert!(needs_atomic_counter(&result, &m));
    assert!(!needs_atomic_counter(&cell, &m));
    // A push inside a `let` initializer of an `if` body is not looked at.
    let hidden = module(vec![Item::Fn(main_fn(vec![expr_stmt(
        Expr::If {
            cond: Box::new(name("c")),
            then_branch: Block { stmts: vec![let_stmt("x", helper_call("WgslOutput", "push", "Cell", vec![int_lit("1")]))] },
            else_branch: None,
        },
        false,
    )]))]);
    assert!(!needs_atomic_counter(&cell, &hidden));
}

#[test]
fn error_messages() {
    assert_eq!(WgslError::NoMainFunction.message(), "No main function found in shader module");
    assert_eq!(
        WgslError::UnsupportedType("Foo".to_string()).message(),
        "Unsupported type in type_to_wgsl: Foo"
    );
    assert_eq!(
        WgslError::UnsupportedExpression(ExprKind::MethodCall).message(),
        "Method calls are not supported in WGSL, use standalone functions instead"
    );
    assert_eq!(WgslError::GlobalIdAssignment.message(), "Cannot assign to global_id");
}

#[test]
fn pushed_counters_are_bound() {
    let u = wgsl_shader_module_user_portion(collision_module()).unwrap();
    let lib = WgslShaderModuleLibraryPortion::from(&u);
    let counter = lib
        .bindings
        .iter()
        .find(|b| b.name == "collisionresult_counter")
        .expect("a counter binding");
    assert_eq!(counter.type_decl, "atomic<u32>");
    let main = u.main_function.unwrap().code.wgsl_code;
    assert!(main.contains("atomicAdd(&collisionresult_counter, 1u)"));
}
