use rust_to_wgsl::custom_types::{get_custom_types, CustomTypeKind};
use rust_to_wgsl::errors::WgslError;
use rust_to_wgsl::syntax::{
    Attribute, Block, Expr, GenericArgument, Item, ItemFn, ItemMod, ItemStruct, Lit, Pat,
    PathArguments, PathSegment, RustPath, RustType, Stmt,
};
use rust_to_wgsl::transform_wgsl_helper_methods::{
    choose_expand_format, convert_special_helper_functions, transform_wgsl_helper_methods,
    ToExpandedFormatMethodKind, WgslHelperCategory, WgslHelperMethodName,
};
use rust_to_wgsl::wgsl_exprs::expr_to_wgsl;

fn seg(name: &str) -> PathSegment {
    PathSegment { ident: name.to_string(), arguments: PathArguments::NoArgs }
}

fn generic_seg(name: &str, ty: &str) -> PathSegment {
    PathSegment {
        ident: name.to_string(),
        arguments: PathArguments::AngleBracketed(vec![GenericArgument::Type(RustType::Path(
            RustPath { leading_colon: false, segments: vec![seg(ty)] },
        ))]),
    }
}

fn name(n: &str) -> Expr {
    Expr::Path(RustPath { leading_colon: false, segments: vec![seg(n)] })
}

fn int_lit(n: &str) -> Expr {
    Expr::Lit(Lit::Int(n.to_string()))
}

fn helper_call(module: &str, method: &str, ty: &str, args: Vec<Expr>) -> Expr {
    Expr::Call {
        func: Box::new(Expr::Path(RustPath {
            leading_colon: false,
            segments: vec![seg(module), generic_seg(method, ty)],
        })),
        args,
    }
}

fn let_stmt(n: &str, e: Expr) -> Stmt {
    Stmt::Local { pat: Pat::Ident(n.to_string()), init: Some(e) }
}

fn expr_stmt(e: Expr, semi: bool) -> Stmt {
    Stmt::Expr { expr: e, semi }
}

/// `mod test { fn example() { stmts } }`
fn module_with(stmts: Vec<Stmt>) -> ItemMod {
    ItemMod {
        name: "test".to_string(),
        visibility: String::new(),
        content: Some(vec![Item::Fn(ItemFn {
            name: "example".to_string(),
            inputs: vec![],
            output: None,
            block: Block { stmts },
            tokens: "fn example() { .. }".to_string(),
        })]),
    }
}

fn index(arr: Expr, i: Expr) -> Expr {
    Expr::Index { expr: Box::new(arr), index: Box::new(i) }
}

fn assign(l: Expr, r: Expr) -> Expr {
    Expr::Assign { left: Box::new(l), right: Box::new(r) }
}

#[test]
fn test_test_vec_len() {
    let input = module_with(vec![let_stmt(
        "x",
        helper_call("WgslVecInput", "vec_len", "Position", vec![]),
    )]);
    let expected = module_with(vec![let_stmt("x", name("POSITION_INPUT_ARRAY_LENGTH"))]);
    let custom_types = vec![String::from("Position")];
    let output = convert_special_helper_functions(input, custom_types);
    assert_eq!(output, Ok(expected));
}

#[test]
fn test_test_vec_val() {
    let input = module_with(vec![let_stmt(
        "x",
        helper_call("WgslVecInput", "vec_val", "Radius", vec![int_lit("5")]),
    )]);
    let expected = module_with(vec![let_stmt("x", index(name("radius_input_array"), int_lit("5")))]);
    let custom_types = vec![String::from("Radius")];
    let output = convert_special_helper_functions(input, custom_types);
    assert_eq!(output, Ok(expected));
}

#[test]
fn test_test_push() {
    let input = module_with(vec![expr_stmt(
        helper_call("WgslOutput", "push", "CollisionResult", vec![name("value")]),
        true,
    )]);
    let increment = let_stmt(
        "collisionresult_output_array_index",
        Expr::Call {
            func: Box::new(name("atomicAdd")),
            args: vec![
                Expr::Reference { mutable: false, expr: Box::new(name("collisionresult_counter")) },
                int_lit("1u"),
            ],
        },
    );
    let store = expr_stmt(
        assign(
            index(name("collisionresult_output_array"), name("collisionresult_output_array_index")),
            name("value"),
        ),
        true,
    );
    let guarded = expr_stmt(
        Expr::If {
            cond: Box::new(Expr::Binary {
                left: Box::new(name("collisionresult_output_array_index")),
                op: "<".to_string(),
                right: Box::new(name("COLLISIONRESULT_OUTPUT_ARRAY_LENGTH")),
            }),
            then_branch: Block { stmts: vec![store] },
            else_branch: None,
        },
        false,
    );
    let expected = module_with(vec![expr_stmt(
        Expr::Block(Block { stmts: vec![increment, guarded] }),
        true,
    )]);
    let custom_types = vec![String::from("CollisionResult")];
    let output = convert_special_helper_functions(input, custom_types);
    assert_eq!(output, Ok(expected));
}

#[test]
fn test_test_output_len() {
    let input = module_with(vec![let_stmt(
        "x",
        helper_call("WgslOutput", "len", "CollisionResult", vec![]),
    )]);
    let custom_types = vec![String::from("CollisionResult")];
    let expected = module_with(vec![let_stmt("x", name("COLLISIONRESULT_OUTPUT_ARRAY_LENGTH"))]);
    let output = convert_special_helper_functions(input, custom_types);
    assert_eq!(output, Ok(expected));
}

#[test]
fn test_test_output_set() {
    let input = module_with(vec![expr_stmt(
        helper_call("WgslOutput", "set", "CollisionResult", vec![name("idx"), name("val")]),
        true,
    )]);
    let custom_types = vec![String::from("CollisionResult")];
    let expected = module_with(vec![expr_stmt(
        assign(index(name("collisionresult_output_array"), name("idx")), name("val")),
        true,
    )]);
    let output = convert_special_helper_functions(input, custom_types);
    assert_eq!(output, Ok(expected));
}

#[test]
fn calls_on_unknown_types_stay() {
    let make = || {
        module_with(vec![let_stmt("x", helper_call("WgslVecInput", "vec_len", "Unknown", vec![]))])
    };
    let output = convert_special_helper_functions(make(), vec![String::from("Position")]);
    assert_eq!(output, Ok(make()));
}

#[test]
fn calls_without_expansion_stay() {
    // `get` names a helper method, but no expansion exists for it.
    let make = || {
        module_with(vec![let_stmt("x", helper_call("WgslOutput", "get", "Position", vec![int_lit("1")]))])
    };
    let output = convert_special_helper_functions(make(), vec![String::from("Position")]);
    assert_eq!(output, Ok(make()));
}

#[test]
fn nested_helper_calls_are_rewritten_inside_out() {
    // WgslVecInput::vec_val::<Radius>(WgslVecInput::vec_len::<Radius>())
    let inner = helper_call("WgslVecInput", "vec_len", "Radius", vec![]);
    let input = module_with(vec![let_stmt(
        "x",
        helper_call("WgslVecInput", "vec_val", "Radius", vec![inner]),
    )]);
    let expected = module_with(vec![let_stmt(
        "x",
        index(name("radius_input_array"), name("RADIUS_INPUT_ARRAY_LENGTH")),
    )]);
    let output = convert_special_helper_functions(input, vec![String::from("Radius")]);
    assert_eq!(output, Ok(expected));
}

#[test]
fn missing_arguments_are_errors() {
    let vec_val = module_with(vec![let_stmt("x", helper_call("WgslVecInput", "vec_val", "R", vec![]))]);
    assert_eq!(
        convert_special_helper_functions(vec_val, vec![String::from("R")]),
        Err(WgslError::MissingVecValArgument)
    );
    let push = module_with(vec![expr_stmt(helper_call("WgslOutput", "push", "R", vec![]), true)]);
    assert_eq!(
        convert_special_helper_functions(push, vec![String::from("R")]),
        Err(WgslError::MissingPushArgument)
    );
    let set = module_with(vec![expr_stmt(helper_call("WgslOutput", "set", "R", vec![int_lit("0")]), true)]);
    assert_eq!(
        convert_special_helper_functions(set, vec![String::from("R")]),
        Err(WgslError::MissingSetArguments)
    );
}

#[test]
fn expansions_read_as_wgsl() {
    let input = module_with(vec![expr_stmt(
        helper_call("WgslOutput", "push", "Hit", vec![name("v")]),
        true,
    )]);
    let output = convert_special_helper_functions(input, vec![String::from("Hit")]).unwrap();
    let items = output.content.unwrap();
    let stmt = match &items[0] {
        Item::Fn(f) => &f.block.stmts[0],
        _ => panic!("expected a function"),
    };
    let text = match stmt {
        Stmt::Expr { expr, .. } => expr_to_wgsl(expr).unwrap(),
        _ => panic!("expected an expression statement"),
    };
    assert_eq!(
        text,
        "let hit_output_array_index = atomicAdd(&hit_counter, 1u);\nif ((hit_output_array_index < HIT_OUTPUT_ARRAY_LENGTH)) { hit_output_array[hit_output_array_index] = v; }"
    );
}

#[test]
fn transform_uses_the_module_types() {
    let mut module = module_with(vec![let_stmt(
        "x",
        helper_call("WgslVecInput", "vec_len", "Position", vec![]),
    )]);
    if let Some(items) = module.content.as_mut() {
        items.push(Item::Struct(ItemStruct {
            attrs: vec![Attribute {
                path: RustPath { leading_colon: false, segments: vec![seg("wgsl_input_array")] },
            }],
            name: "Position".to_string(),
            fields: vec![],
            tokens: "struct Position {}".to_string(),
        }));
    }
    let allowed = get_custom_types(&module);
    assert_eq!(allowed.custom_types.len(), 1);
    assert_eq!(allowed.custom_types[0].kind, CustomTypeKind::InputArray);
    let output = transform_wgsl_helper_methods(module, &allowed).unwrap();
    let items = output.content.unwrap();
    match &items[0] {
        Item::Fn(f) => assert_eq!(f.block.stmts[0], let_stmt("x", name("POSITION_INPUT_ARRAY_LENGTH"))),
        _ => panic!("expected a function"),
    }
}

#[test]
fn helper_names_and_formats() {
    assert_eq!(WgslHelperCategory::from_ident("WgslVecInput"), Some(WgslHelperCategory::VecInput));
    assert_eq!(WgslHelperCategory::from_ident("WgslOutput"), Some(WgslHelperCategory::Output));
    assert_eq!(WgslHelperCategory::from_ident("Other"), None);
    assert_eq!(WgslHelperMethodName::from_ident("vec_len"), Some(WgslHelperMethodName::VecLen));
    assert_eq!(WgslHelperMethodName::from_ident("set"), Some(WgslHelperMethodName::SetValue));
    assert_eq!(WgslHelperMethodName::from_ident("get"), Some(WgslHelperMethodName::Get));
    assert_eq!(WgslHelperMethodName::from_ident("pop"), None);
    assert_eq!(
        choose_expand_format(WgslHelperCategory::Output, WgslHelperMethodName::Push),
        Some(ToExpandedFormatMethodKind::OutputPush)
    );
    assert_eq!(choose_expand_format(WgslHelperCategory::VecInput, WgslHelperMethodName::Push), None);
    assert_eq!(choose_expand_format(WgslHelperCategory::Output, WgslHelperMethodName::Get), None);
}

#[test]
fn rewriting_twice_changes_nothing() {
    let make = || {
        module_with(vec![
            let_stmt("x", helper_call("WgslVecInput", "vec_val", "Radius", vec![int_lit("1")])),
            expr_stmt(helper_call("WgslOutput", "push", "Radius", vec![name("x")]), true),
        ])
    };
    let once = convert_special_helper_functions(make(), vec![String::from("Radius")]).unwrap();
    let expected = convert_special_helper_functions(make(), vec![String::from("Radius")]).unwrap();
    let twice = convert_special_helper_functions(once, vec![String::from("Radius")]);
    assert_eq!(twice, Ok(expected));
}

// The same cases, as the converter without a list of types was tested; the list
// names the type each case uses.
#[test]
fn convert_special_helper_functions_test_vec_len() {
    let input = module_with(vec![let_stmt(
        "x",
        helper_call("WgslVecInput", "vec_len", "Position", vec![]),
    )]);
    let expected = module_with(vec![let_stmt("x", name("POSITION_INPUT_ARRAY_LENGTH"))]);
    let custom_types = vec![String::from("Position")];
    let output = convert_special_helper_functions(input, custom_types);
    assert_eq!(output, Ok(expected));
}

#[test]
fn convert_special_helper_functions_test_vec_val() {
    let input = module_with(vec![let_stmt(
        "x",
        helper_call("WgslVecInput", "vec_val", "Radius", vec![int_lit("5")]),
    )]);
    let expected = module_with(vec![let_stmt("x", index(name("radius_input_array"), int_lit("5")))]);
    let custom_types = vec![String::from("Radius")];
    let output = convert_special_helper_functions(input, custom_types);
    assert_eq!(output, Ok(expected));
}

#[test]
fn convert_special_helper_functions_test_push() {
    let input = module_with(vec![expr_stmt(
        helper_call("WgslOutput", "push", "CollisionResult", vec![name("value")]),
        true,
    )]);
    let increment = let_stmt(
        "collisionresult_output_array_index",
        Expr::Call {
            func: Box::new(name("atomicAdd")),
            args: vec![
                Expr::Reference { mutable: false, expr: Box::new(name("collisionresult_counter")) },
                int_lit("1u"),
            ],
        },
    );
    let store = expr_stmt(
        assign(
            index(name("collisionresult_output_array"), name("collisionresult_output_array_index")),
            name("value"),
        ),
        true,
    );
    let guarded = expr_stmt(
        Expr::If {
            cond: Box::new(Expr::Binary {
                left: Box::new(name("collisionresult_output_array_index")),
                op: "<".to_string(),
                right: Box::new(name("COLLISIONRESULT_OUTPUT_ARRAY_LENGTH")),
            }),
            then_branch: Block { stmts: vec![store] },
            else_branch: None,
        },
        false,
    );
    let expected = module_with(vec![expr_stmt(
        Expr::Block(Block { stmts: vec![increment, guarded] }),
        true,
    )]);
    let custom_types = vec![String::from("CollisionResult")];
    let output = convert_special_helper_functions(input, custom_types);
    assert_eq!(output, Ok(expected));
}

#[test]
fn convert_special_helper_functions_test_output_len() {
    let input = module_with(vec![let_stmt(
        "x",
        helper_call("WgslOutput", "len", "CollisionResult", vec![]),
    )]);
    let custom_types = vec![String::from("CollisionResult")];
    let expected = module_with(vec![let_stmt("x", name("COLLISIONRESULT_OUTPUT_ARRAY_LENGTH"))]);
    let output = convert_special_helper_functions(input, custom_types);
    assert_eq!(output, Ok(expected));
}

#[test]
fn convert_special_helper_functions_test_output_set() {
    let input = module_with(vec![expr_stmt(
        helper_call("WgslOutput", "set", "CollisionResult", vec![name("idx"), name("val")]),
        true,
    )]);
    let custom_types = vec![String::from("CollisionResult")];
    let expected = module_with(vec![expr_stmt(
        assign(index(name("collisionresult_output_array"), name("idx")), name("val")),
        true,
    )]);
    let output = convert_special_helper_functions(input, custom_types);
    assert_eq!(output, Ok(expected));
}
