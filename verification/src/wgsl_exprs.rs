//! Turning Rust expressions, statements and blocks into WGSL text.
use vstd::prelude::*;
use vstd::string::*;
use crate::errors::WgslError;
use crate::syntax::{Block, Expr, ExprKind, FieldValue, Lit, Pat, PathSegment, RustPath, Stmt};
use crate::text::{owned, str_eq};
use crate::wgsl_types::{helper_type_to_wgsl, helper_type_wgsl, text_result};

verus! {

/// A type name that may stand before `::new` in an expression: a helper vector or
/// matrix type, or a WGSL scalar.
pub open spec fn is_wgsl_native_type(n: Seq<char>) -> bool {
    helper_type_wgsl(n) is Some || n == "f32"@ || n == "f16"@ || n == "i32"@ || n == "u32"@ || n
        == "bool"@
}

/// The WGSL constructor that `Native::new` stands for.
pub open spec fn native_constructor_wgsl(n: Seq<char>) -> Seq<char> {
    if helper_type_wgsl(n) is Some {
        helper_type_wgsl(n).unwrap()
    } else {
        n
    }
}

/// The WGSL text of a path in expression position: a single name, or
/// `Native::new` for a native type, which becomes that type's constructor.
pub open spec fn path_expr_wgsl(p: RustPath) -> Result<Seq<char>, WgslError> {
    let segs = p.segments@;
    if segs.len() == 0 {
        Ok(Seq::empty())
    } else if segs.len() == 1 {
        Ok(segs[0].ident@)
    } else if segs.len() == 2 && is_wgsl_native_type(segs[0].ident@) && segs[1].ident@ == "new"@ {
        Ok(native_constructor_wgsl(segs[0].ident@))
    } else {
        Err(WgslError::ComplexPath)
    }
}

/// The WGSL text of a literal.
pub open spec fn lit_wgsl(l: Lit) -> Result<Seq<char>, WgslError> {
    match l {
        Lit::Int(n) => Ok(n@),
        Lit::Float(n) => Ok(n@),
        Lit::Bool(b) => Ok(
            if b {
                "true"@
            } else {
                "false"@
            },
        ),
        Lit::Other(_) => Err(WgslError::UnsupportedLiteral),
    }
}

/// The head of the WGSL loop that counts `name` from `start` up to `end`, the end
/// itself included where `closed`: `for (var i = start; i < end; i++)`.
pub open spec fn for_header(name: Seq<char>, start: Seq<char>, closed: bool, end: Seq<char>) -> Seq<char> {
    "for (var "@ + name + " = "@ + start + "; "@ + name + (if closed {
        " <= "@
    } else {
        " < "@
    }) + end + "; "@ + name + "++)"@
}

/// The WGSL text of an expression, or why there is none. Where several
/// sub-expressions are rejected, the error is the one met first in the order in
/// which they are converted.
pub open spec fn expr_wgsl(e: Expr) -> Result<Seq<char>, WgslError>
    decreases e,
{
    match e {
        Expr::Lit(l) => lit_wgsl(l),
        Expr::Array(_) => Err(WgslError::ArrayLiteral),
        Expr::Assign { left, right } => match expr_wgsl(*left) {
            Err(x) => Err(x),
            Ok(l) => match expr_wgsl(*right) {
                Err(x) => Err(x),
                Ok(r) => Ok(l + " = "@ + r),
            },
        },
        Expr::Binary { left, op, right } => match expr_wgsl(*left) {
            Err(x) => Err(x),
            Ok(l) => match expr_wgsl(*right) {
                Err(x) => Err(x),
                Ok(r) => Ok("("@ + l + " "@ + op@ + " "@ + r + ")"@),
            },
        },
        Expr::Block(b) => stmts_wgsl(b.stmts@),
        Expr::Break(v) => match v {
            None => Ok("break"@),
            Some(x) => match expr_wgsl(*x) {
                Err(err) => Err(err),
                Ok(t) => Ok("break "@ + t),
            },
        },
        Expr::Call { func, args } => match exprs_wgsl(args@) {
            Err(x) => Err(x),
            Ok(a) => match expr_wgsl(*func) {
                Err(x) => Err(x),
                Ok(f) => Ok(f + "("@ + a + ")"@),
            },
        },
        Expr::Continue => Ok("continue"@),
        Expr::Field { base, member } => match expr_wgsl(*base) {
            Err(x) => Err(x),
            Ok(b) => Ok(b + "."@ + member@),
        },
        Expr::ForLoop { pat, expr, body } => match pat {
            Pat::Ident(i) => match *expr {
                Expr::Range { start: Some(s), end: Some(en), closed } => match expr_wgsl(*s) {
                    Err(x) => Err(x),
                    Ok(st) => match expr_wgsl(*en) {
                        Err(x) => Err(x),
                        Ok(et) => match stmts_wgsl(body.stmts@) {
                            Err(x) => Err(x),
                            Ok(b) => Ok(for_header(i@, st, closed, et) + " { "@ + b + " }"@),
                        },
                    },
                },
                _ => Err(WgslError::UnsupportedForLoop),
            },
            Pat::Other => Err(WgslError::UnsupportedForLoop),
        },
        Expr::Group(x) => expr_wgsl(*x),
        Expr::If { cond, then_branch, else_branch } => match else_branch {
            None => match expr_wgsl(*cond) {
                Err(x) => Err(x),
                Ok(c) => match stmts_wgsl(then_branch.stmts@) {
                    Err(x) => Err(x),
                    Ok(t) => Ok("if ("@ + c + ") { "@ + t + " }"@),
                },
            },
            Some(el) => match expr_wgsl(*el) {
                Err(x) => Err(x),
                Ok(elt) => match expr_wgsl(*cond) {
                    Err(x) => Err(x),
                    Ok(c) => match stmts_wgsl(then_branch.stmts@) {
                        Err(x) => Err(x),
                        Ok(t) => Ok("if ("@ + c + ") { "@ + t + " }"@ + " else { "@ + elt + " }"@),
                    },
                },
            },
        },
        Expr::Index { expr, index } => match expr_wgsl(*expr) {
            Err(x) => Err(x),
            Ok(a) => match expr_wgsl(*index) {
                Err(x) => Err(x),
                Ok(i) => Ok(a + "["@ + i + "]"@),
            },
        },
        Expr::Loop(blk) => match stmts_wgsl(blk.stmts@) {
            Err(x) => Err(x),
            Ok(b) => Ok("for (;;) { "@ + b + " }"@),
        },
        Expr::Paren(x) => match expr_wgsl(*x) {
            Err(err) => Err(err),
            Ok(t) => Ok("("@ + t + ")"@),
        },
        Expr::Path(p) => path_expr_wgsl(p),
        Expr::Range { .. } => Err(WgslError::UnsupportedExpression(ExprKind::Range)),
        Expr::Reference { mutable, expr } => if mutable {
            Err(WgslError::MutableReference)
        } else {
            match expr_wgsl(*expr) {
                Err(x) => Err(x),
                Ok(t) => Ok("&"@ + t),
            }
        },
        Expr::Return(v) => match v {
            None => Ok("return"@),
            Some(x) => match expr_wgsl(*x) {
                Err(err) => Err(err),
                Ok(t) => Ok("return "@ + t),
            },
        },
        Expr::Struct { path, fields } => match field_values_wgsl(fields@) {
            Err(x) => Err(x),
            Ok(f) => if path.segments@.len() == 0 {
                Err(WgslError::EmptyPath)
            } else {
                Ok(path.segments@.last().ident@ + "("@ + f + ")"@)
            },
        },
        Expr::Unary { op, expr } => match expr_wgsl(*expr) {
            Err(x) => Err(x),
            Ok(t) => Ok("("@ + op@ + " "@ + t + ")"@),
        },
        Expr::Verbatim(t) => Ok(t@),
        Expr::While { cond, body } => match expr_wgsl(*cond) {
            Err(x) => Err(x),
            Ok(c) => match stmts_wgsl(body.stmts@) {
                Err(x) => Err(x),
                Ok(b) => Ok("while ("@ + c + ") { "@ + b + " }"@),
            },
        },
        Expr::Unsupported(k) => Err(WgslError::UnsupportedExpression(k)),
    }
}

/// Expressions in WGSL, separated by `", "`.
pub open spec fn exprs_wgsl(s: Seq<Expr>) -> Result<Seq<char>, WgslError>
    decreases s,
{
    if s.len() == 0 {
        Ok(Seq::empty())
    } else {
        match exprs_wgsl(s.drop_last()) {
            Err(x) => Err(x),
            Ok(prefix) => match expr_wgsl(s.last()) {
                Err(x) => Err(x),
                Ok(t) => Ok(
                    if s.len() == 1 {
                        t
                    } else {
                        prefix + ", "@ + t
                    },
                ),
            },
        }
    }
}

/// The values of a struct literal in WGSL, in the order written, separated by `", "`.
pub open spec fn field_values_wgsl(s: Seq<FieldValue>) -> Result<Seq<char>, WgslError>
    decreases s,
{
    if s.len() == 0 {
        Ok(Seq::empty())
    } else {
        match field_values_wgsl(s.drop_last()) {
            Err(x) => Err(x),
            Ok(prefix) => match expr_wgsl(s.last().expr) {
                Err(x) => Err(x),
                Ok(t) => Ok(
                    if s.len() == 1 {
                        t
                    } else {
                        prefix + ", "@ + t
                    },
                ),
            },
        }
    }
}

/// One statement in WGSL.
pub open spec fn stmt_wgsl(s: Stmt) -> Result<Seq<char>, WgslError>
    decreases s,
{
    match s {
        Stmt::Local { pat, init } => match pat {
            Pat::Ident(name) => match init {
                None => Ok("let "@ + name@ + ";"@),
                Some(x) => match expr_wgsl(x) {
                    Err(err) => Err(err),
                    Ok(t) => Ok("let "@ + name@ + " = "@ + t + ";"@),
                },
            },
            Pat::Other => Err(WgslError::UnsupportedVariablePattern),
        },
        Stmt::Expr { expr, semi } => match expr_wgsl(expr) {
            Err(x) => Err(x),
            Ok(t) => Ok(
                if semi {
                    t + ";"@
                } else {
                    t
                },
            ),
        },
        Stmt::Item => Err(WgslError::UnsupportedStatement),
        Stmt::Macro => Err(WgslError::UnsupportedStatement),
    }
}

/// Statements in WGSL, one per line.
pub open spec fn stmts_wgsl(s: Seq<Stmt>) -> Result<Seq<char>, WgslError>
    decreases s,
{
    if s.len() == 0 {
        Ok(Seq::empty())
    } else {
        match stmts_wgsl(s.drop_last()) {
            Err(x) => Err(x),
            Ok(prefix) => match stmt_wgsl(s.last()) {
                Err(x) => Err(x),
                Ok(t) => Ok(
                    if s.len() == 1 {
                        t
                    } else {
                        prefix + "\n"@ + t
                    },
                ),
            },
        }
    }
}


fn is_wgsl_native_type_exec(n: &str) -> (res: Option<String>)
    ensures
        match res {
            Some(t) => is_wgsl_native_type(n@) && t@ == native_constructor_wgsl(n@),
            None => !is_wgsl_native_type(n@),
        },
{
    if let Some(h) = helper_type_to_wgsl(n) {
        return Some(h);
    }
    if str_eq(n, "f32") || str_eq(n, "f16") || str_eq(n, "i32") || str_eq(n, "u32") || str_eq(
        n,
        "bool",
    ) {
        return Some(owned(n));
    }
    None
}

/// The WGSL text of a path in expression position (see `path_expr_wgsl`).
pub fn path_expr_to_wgsl(p: &RustPath) -> (res: Result<String, WgslError>)
    ensures
        text_result(res) == path_expr_wgsl(*p),
{
    let n = p.segments.len();
    if n == 0 {
        return Ok(String::new());
    }
    if n == 1 {
        return Ok(owned(p.segments[0].ident.as_str()));
    }
    if n == 2 && str_eq(p.segments[1].ident.as_str(), "new") {
        if let Some(t) = is_wgsl_native_type_exec(p.segments[0].ident.as_str()) {
            return Ok(t);
        }
    }
    Err(WgslError::ComplexPath)
}

/// The WGSL text of a literal: numbers as written, `true` or `false`.
pub fn lit_to_wgsl(l: &Lit) -> (res: Result<String, WgslError>)
    ensures
        text_result(res) == lit_wgsl(*l),
{
    match l {
        Lit::Int(n) => Ok(owned(n.as_str())),
        Lit::Float(n) => Ok(owned(n.as_str())),
        Lit::Bool(b) => Ok(
            if *b {
                owned("true")
            } else {
                owned("false")
            },
        ),
        Lit::Other(_) => Err(WgslError::UnsupportedLiteral),
    }
}

fn wrap(a: &str, x: &str, b: &str) -> (res: String)
    ensures
        res@ == a@ + x@ + b@,
{
    let mut r = owned(a);
    r.append(x);
    r.append(b);
    r
}

/// The WGSL text of an expression (see `expr_wgsl`): rejects what WGSL cannot
/// express, writes struct literals as constructor calls `Name(a, b)`,
/// `Native::new(..)` as the native type's constructor, `for i in a..b { .. }` as
/// `for (var i = a; i < b; i++) { .. }` and `loop { .. }` as `for (;;) { .. }`.
pub fn expr_to_wgsl(e: &Expr) -> (res: Result<String, WgslError>)
    ensures
        text_result(res) == expr_wgsl(*e),
    decreases e, 0nat,
{
    match e {
        Expr::Lit(l) => lit_to_wgsl(l),
        Expr::Array(_) => Err(WgslError::ArrayLiteral),
        Expr::Assign { left, right } => {
            let l = expr_to_wgsl(left)?;
            let r = expr_to_wgsl(right)?;
            let mut t = l;
            t.append(" = ");
            t.append(r.as_str());
            Ok(t)
        },
        Expr::Binary { left, op, right } => {
            let l = expr_to_wgsl(left)?;
            let r = expr_to_wgsl(right)?;
            let mut t = owned("(");
            t.append(l.as_str());
            t.append(" ");
            t.append(op.as_str());
            t.append(" ");
            t.append(r.as_str());
            t.append(")");
            Ok(t)
        },
        Expr::Block(b) => {
            proof {
                assert(decreases_to!(*e => *b));
            }
            block_to_wgsl(b)
        },
        Expr::Break(v) => match v {
            None => Ok(owned("break")),
            Some(x) => {
                let t = expr_to_wgsl(x)?;
                let mut r = owned("break ");
                r.append(t.as_str());
                Ok(r)
            },
        },
        Expr::Call { func, args } => {
            proof {
                assert(decreases_to!(*e => *args));
                assert(args@.subrange(0, args@.len() as int) =~= args@);
            }
            let a = exprs_prefix_to_wgsl(args, args.len())?;
            let f = expr_to_wgsl(func)?;
            let mut t = f;
            t.append("(");
            t.append(a.as_str());
            t.append(")");
            Ok(t)
        },
        Expr::Continue => Ok(owned("continue")),
        Expr::Field { base, member } => {
            let b = expr_to_wgsl(base)?;
            let mut t = b;
            t.append(".");
            t.append(member.as_str());
            Ok(t)
        },
        Expr::ForLoop { pat, expr: iterated, body } => {
            let name = match pat {
                Pat::Ident(i) => i,
                Pat::Other => {
                    return Err(WgslError::UnsupportedForLoop);
                },
            };
            match &**iterated {
                Expr::Range { start: Some(s), end: Some(en), closed } => {
                    let st = expr_to_wgsl(s)?;
                    let et = expr_to_wgsl(en)?;
                    proof {
                        assert(decreases_to!(*e => *body));
                    }
                    let b = block_to_wgsl(body)?;
                    let mut r = wrap("for (var ", name.as_str(), " = ");
                    r.append(st.as_str());
                    r.append("; ");
                    r.append(name.as_str());
                    if *closed {
                        r.append(" <= ");
                    } else {
                        r.append(" < ");
                    }
                    r.append(et.as_str());
                    r.append("; ");
                    r.append(name.as_str());
                    r.append("++)");
                    proof {
                        assert(r@ =~= for_header(name@, st@, *closed, et@));
                    }
                    r.append(" { ");
                    r.append(b.as_str());
                    r.append(" }");
                    Ok(r)
                },
                _ => Err(WgslError::UnsupportedForLoop),
            }
        },
        Expr::Group(x) => expr_to_wgsl(x),
        Expr::If { cond, then_branch, else_branch } => {
            let else_text = match else_branch {
                None => String::new(),
                Some(el) => {
                    let elt = expr_to_wgsl(el)?;
                    wrap(" else { ", elt.as_str(), " }")
                },
            };
            let ghost else_spec = if else_branch is Some {
                " else { "@ + expr_wgsl(*else_branch->Some_0)->Ok_0 + " }"@
            } else {
                Seq::<char>::empty()
            };
            assert(else_text@ == else_spec);
            let c = expr_to_wgsl(cond)?;
            proof {
                assert(decreases_to!(*e => *then_branch));
            }
            let t = block_to_wgsl(then_branch)?;
            let mut r = wrap("if (", c.as_str(), ") { ");
            r.append(t.as_str());
            r.append(" }");
            r.append(else_text.as_str());
            proof {
                let sc = expr_wgsl(**cond)->Ok_0;
                let st = stmts_wgsl(then_branch.stmts@)->Ok_0;
                assert(r@ =~= "if ("@ + sc + ") { "@ + st + " }"@ + else_spec);
                if else_branch is Some {
                    assert(r@ =~= "if ("@ + sc + ") { "@ + st + " }"@ + " else { "@ + expr_wgsl(*else_branch->Some_0)->Ok_0 + " }"@);
                }
            }
            Ok(r)
        },
        Expr::Index { expr, index } => {
            let a = expr_to_wgsl(expr)?;
            let i = expr_to_wgsl(index)?;
            let mut t = a;
            t.append("[");
            t.append(i.as_str());
            t.append("]");
            Ok(t)
        },
        Expr::Loop(blk) => {
            proof {
                assert(decreases_to!(*e => *blk));
            }
            let b = block_to_wgsl(blk)?;
            Ok(wrap("for (;;) { ", b.as_str(), " }"))
        },
        Expr::Paren(x) => {
            let t = expr_to_wgsl(x)?;
            Ok(wrap("(", t.as_str(), ")"))
        },
        Expr::Path(p) => path_expr_to_wgsl(p),
        Expr::Range { .. } => Err(WgslError::UnsupportedExpression(ExprKind::Range)),
        Expr::Reference { mutable, expr } => {
            if *mutable {
                return Err(WgslError::MutableReference);
            }
            let t = expr_to_wgsl(expr)?;
            let mut r = owned("&");
            r.append(t.as_str());
            Ok(r)
        },
        Expr::Return(v) => match v {
            None => Ok(owned("return")),
            Some(x) => {
                let t = expr_to_wgsl(x)?;
                let mut r = owned("return ");
                r.append(t.as_str());
                Ok(r)
            },
        },
        Expr::Struct { path, fields } => {
            proof {
                assert(decreases_to!(*e => *fields));
                assert(fields@.subrange(0, fields@.len() as int) =~= fields@);
            }
            let f = field_values_prefix_to_wgsl(fields, fields.len())?;
            let n = path.segments.len();
            if n == 0 {
                return Err(WgslError::EmptyPath);
            }
            let mut r = owned(path.segments[n - 1].ident.as_str());
            r.append("(");
            r.append(f.as_str());
            r.append(")");
            Ok(r)
        },
        Expr::Unary { op, expr } => {
            let t = expr_to_wgsl(expr)?;
            let mut r = owned("(");
            r.append(op.as_str());
            r.append(" ");
            r.append(t.as_str());
            r.append(")");
            Ok(r)
        },
        Expr::Verbatim(t) => Ok(owned(t.as_str())),
        Expr::While { cond, body } => {
            let c = expr_to_wgsl(cond)?;
            proof {
                assert(decreases_to!(*e => *body));
            }
            let b = block_to_wgsl(body)?;
            let mut r = wrap("while (", c.as_str(), ") { ");
            r.append(b.as_str());
            r.append(" }");
            Ok(r)
        },
        Expr::Unsupported(k) => Err(WgslError::UnsupportedExpression(*k)),
    }
}

fn exprs_prefix_to_wgsl(list: &Vec<Expr>, k: usize) -> (res: Result<String, WgslError>)
    requires
        k <= list@.len(),
    ensures
        text_result(res) == exprs_wgsl(list@.subrange(0, k as int)),
    decreases list, k,
{
    if k == 0 {
        return Ok(String::new());
    }
    assert(list@.subrange(0, k as int).drop_last() =~= list@.subrange(0, k - 1));
    let prefix = exprs_prefix_to_wgsl(list, k - 1)?;
    proof {
        assert(decreases_to!(*list => list@));
        assert(decreases_to!(list@ => list@[k - 1]));
    }
    let t = expr_to_wgsl(&list[k - 1])?;
    if k == 1 {
        Ok(t)
    } else {
        let mut r = prefix;
        r.append(", ");
        r.append(t.as_str());
        Ok(r)
    }
}

fn field_values_prefix_to_wgsl(list: &Vec<FieldValue>, k: usize) -> (res: Result<String, WgslError>)
    requires
        k <= list@.len(),
    ensures
        text_result(res) == field_values_wgsl(list@.subrange(0, k as int)),
    decreases list, k,
{
    if k == 0 {
        return Ok(String::new());
    }
    assert(list@.subrange(0, k as int).drop_last() =~= list@.subrange(0, k - 1));
    let prefix = field_values_prefix_to_wgsl(list, k - 1)?;
    proof {
        assert(decreases_to!(*list => list@));
        assert(decreases_to!(list@ => list@[k - 1]));
        assert(decreases_to!(list@[k - 1] => list@[k - 1].expr));
    }
    let t = expr_to_wgsl(&list[k - 1].expr)?;
    if k == 1 {
        Ok(t)
    } else {
        let mut r = prefix;
        r.append(", ");
        r.append(t.as_str());
        Ok(r)
    }
}

/// The WGSL text of one statement: `let name = value;`, or an expression with its
/// semicolon kept.
pub fn format_local_or_expr_stmt(s: &Stmt) -> (res: Result<String, WgslError>)
    ensures
        text_result(res) == stmt_wgsl(*s),
    decreases s, 0nat,
{
    match s {
        Stmt::Local { pat, init } => match pat {
            Pat::Ident(name) => match init {
                None => Ok(wrap("let ", name.as_str(), ";")),
                Some(x) => {
                    let t = expr_to_wgsl(x)?;
                    let mut r = wrap("let ", name.as_str(), " = ");
                    r.append(t.as_str());
                    r.append(";");
                    Ok(r)
                },
            },
            Pat::Other => Err(WgslError::UnsupportedVariablePattern),
        },
        Stmt::Expr { expr, semi } => {
            let t = expr_to_wgsl(expr)?;
            if *semi {
                let mut r = t;
                r.append(";");
                Ok(r)
            } else {
                Ok(t)
            }
        },
        Stmt::Item => Err(WgslError::UnsupportedStatement),
        Stmt::Macro => Err(WgslError::UnsupportedStatement),
    }
}

fn stmts_prefix_to_wgsl(list: &Vec<Stmt>, k: usize) -> (res: Result<String, WgslError>)
    requires
        k <= list@.len(),
    ensures
        text_result(res) == stmts_wgsl(list@.subrange(0, k as int)),
    decreases list, k,
{
    if k == 0 {
        return Ok(String::new());
    }
    assert(list@.subrange(0, k as int).drop_last() =~= list@.subrange(0, k - 1));
    let prefix = stmts_prefix_to_wgsl(list, k - 1)?;
    proof {
        assert(decreases_to!(*list => list@));
        assert(decreases_to!(list@ => list@[k - 1]));
    }
    let t = format_local_or_expr_stmt(&list[k - 1])?;
    if k == 1 {
        Ok(t)
    } else {
        let mut r = prefix;
        r.append("\n");
        r.append(t.as_str());
        Ok(r)
    }
}

/// The WGSL text of a block's statements, one per line.
pub fn block_to_wgsl(b: &Block) -> (res: Result<String, WgslError>)
    ensures
        text_result(res) == stmts_wgsl(b.stmts@),
    decreases b, 0nat,
{
    proof {
        assert(decreases_to!(*b => b.stmts));
        assert(b.stmts@.subrange(0, b.stmts@.len() as int) =~= b.stmts@);
    }
    stmts_prefix_to_wgsl(&b.stmts, b.stmts.len())
}

} // verus!
