use rust_to_wgsl::errors::WgslError;
use rust_to_wgsl::per_component_expansion::rust_string_literal;
use rust_to_wgsl::push_calls::visit_function_body;
use rust_to_wgsl::syntax::{
    Block, Expr, GenericArgument, Item, ItemFn, Lit, Pat, PathArguments, PathSegment, RustPath, RustType, Stmt,
    UseTree,
};
use rust_to_wgsl::use_statements::handle_use_statements;
use rust_to_wgsl::validation::check_expr_for_global_id_assignment;
use rust_to_wgsl::wgsl_exprs::expr_to_wgsl;

fn seg(name: &str) -> PathSegment {
    PathSegment { ident: name.to_string(), arguments: PathArguments::NoArgs }
}

fn name(n: &str) -> Expr {
    Expr::Path(RustPath { leading_colon: false, segments: vec![seg(n)] })
}

fn int_lit(n: &str) -> Expr {
    Expr::Lit(Lit::Int(n.to_string()))
}

fn assign(l: Expr, r: Expr) -> Stmt {
    Stmt::Expr { expr: Expr::Assign { left: Box::new(l), right: Box::new(r) }, semi: true }
}

fn compound(l: Expr, op: &str, r: Expr) -> Expr {
    Expr::Binary { left: Box::new(l), op: op.to_string(), right: Box::new(r) }
}

fn field(base: Expr, member: &str) -> Expr {
    Expr::Field { base: Box::new(base), member: member.to_string() }
}

fn range(start: Expr, end: Expr, closed: bool) -> Expr {
    Expr::Range { start: Some(Box::new(start)), end: Some(Box::new(end)), closed }
}

#[test]
fn for_loop_over_a_range_becomes_a_counting_loop() {
    let body = Block { stmts: vec![assign(name("x"), name("i"))] };
    let e = Expr::ForLoop {
        pat: Pat::Ident("i".to_string()),
        expr: Box::new(range(int_lit("0"), int_lit("10"), false)),
        body,
    };
    assert_eq!(expr_to_wgsl(&e), Ok("for (var i = 0; i < 10; i++) { x = i; }".to_string()));
}

#[test]
fn for_loop_over_a_closed_range_includes_its_end() {
    let e = Expr::ForLoop {
        pat: Pat::Ident("k".to_string()),
        expr: Box::new(range(int_lit("1"), name("n"), true)),
        body: Block { stmts: vec![] },
    };
    assert_eq!(expr_to_wgsl(&e), Ok("for (var k = 1; k <= n; k++) {  }".to_string()));
}

#[test]
fn loop_becomes_an_endless_for() {
    let e = Expr::Loop(Block { stmts: vec![Stmt::Expr { expr: Expr::Break(None), semi: true }] });
    assert_eq!(expr_to_wgsl(&e), Ok("for (;;) { break; }".to_string()));
}

#[test]
fn compound_assignment_to_global_id_is_refused() {
    let component = compound(field(name("global_id"), "x"), "+=", int_lit("1u32"));
    assert_eq!(check_expr_for_global_id_assignment(&component), Err(WgslError::GlobalIdComponentAssignment));
    let whole = compound(name("global_id"), "-=", name("other"));
    assert_eq!(check_expr_for_global_id_assignment(&whole), Err(WgslError::GlobalIdAssignment));
    let elsewhere = compound(name("total"), "+=", field(name("global_id"), "x"));
    assert_eq!(check_expr_for_global_id_assignment(&elsewhere), Ok(()));
    let comparison = compound(field(name("global_id"), "x"), "<=", int_lit("3"));
    assert_eq!(check_expr_for_global_id_assignment(&comparison), Ok(()));
}

fn push_callee() -> Expr {
    let push = PathSegment {
        ident: "push".to_string(),
        arguments: PathArguments::AngleBracketed(vec![GenericArgument::Type(RustType::Path(RustPath {
            leading_colon: false,
            segments: vec![seg("T")],
        }))]),
    };
    Expr::Path(RustPath { leading_colon: false, segments: vec![seg("WgslOutput"), push] })
}

fn push_call() -> Expr {
    Expr::Call { func: Box::new(push_callee()), args: vec![name("v")] }
}

#[test]
fn function_body_is_visited_outer_first() {
    let f = ItemFn {
        name: "m".to_string(),
        inputs: vec![],
        output: None,
        block: Block { stmts: vec![Stmt::Expr { expr: push_call(), semi: true }] },
        tokens: "fn m() { .. }".to_string(),
    };
    let visited = visit_function_body(&f);
    assert_eq!(visited.len(), 3);
    assert_eq!(visited[0], &push_call());
    assert_eq!(visited[1], &push_callee());
    assert_eq!(visited[2], &name("v"));
}

#[test]
fn string_literals_escape_quotes_backslashes_and_controls() {
    assert_eq!(rust_string_literal("a\"b\\c\nd\te\r"), "\"a\\\"b\\\\c\\nd\\te\\r\"");
    assert_eq!(rust_string_literal(""), "\"\"");
    assert_eq!(rust_string_literal("fn main() {}"), "\"fn main() {}\"");
}

fn use_path(first: &str, rest: UseTree) -> Item {
    Item::Use(UseTree::Path { ident: first.to_string(), tree: Box::new(rest) })
}

#[test]
fn attribute_macro_imports_are_let_through() {
    let helper = use_path(
        "shared",
        UseTree::Path { ident: "wgsl_in_rust_helpers".to_string(), tree: Box::new(UseTree::Glob) },
    );
    let config = use_path("rust_to_wgsl", UseTree::Name("wgsl_config".to_string()));
    let glob = use_path("rust_to_wgsl", UseTree::Glob);
    let items = vec![config, helper, glob];
    assert_eq!(handle_use_statements(&items), Ok(vec![]));
    let unknown = use_path("rust_to_wgsl", UseTree::Name("something_else".to_string()));
    assert_eq!(handle_use_statements(&vec![unknown]), Err(WgslError::InvalidUseStatement));
}

#[test]
fn use_items_are_filtered_out_in_order() {
    let config = use_path("rust_to_wgsl", UseTree::Name("wgsl_config".to_string()));
    let helper = use_path(
        "shared",
        UseTree::Path { ident: "wgsl_in_rust_helpers".to_string(), tree: Box::new(UseTree::Glob) },
    );
    let main = ItemFn {
        name: "main".to_string(),
        inputs: vec![],
        output: None,
        block: Block { stmts: vec![] },
        tokens: "fn main() {}".to_string(),
    };
    let items = vec![config, helper, Item::Other, Item::Fn(main)];
    let kept = handle_use_statements(&items).unwrap();
    assert_eq!(kept.len(), 2);
    assert_eq!(kept[0], &items[2]);
    assert_eq!(kept[1], &items[3]);
}
