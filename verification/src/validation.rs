//! Checks that the shader module respects the rules WGSL compute shaders impose.
use vstd::prelude::*;
use vstd::string::*;
use crate::errors::WgslError;
use crate::syntax::{Block, Expr, FnArg, ItemFn, RustType, Stmt};
use crate::text::str_eq;

verus! {

/// `e` is a path whose last segment is `global_id`.
pub open spec fn names_global_id(e: Expr) -> bool {
    match e {
        Expr::Path(p) => p.segments@.len() > 0 && p.segments@.last().ident@ == "global_id"@,
        _ => false,
    }
}

/// `op` assigns to its left side: `+=`, `-=`, `*=`, `/=`, `%=`, `&=`, `|=`, `^=`, `<<=`
/// or `>>=`.
pub open spec fn is_compound_assign_op(op: Seq<char>) -> bool {
    op == "+="@ || op == "-="@ || op == "*="@ || op == "/="@ || op == "%="@ || op == "&="@ || op
        == "|="@ || op == "^="@ || op == "<<="@ || op == ">>="@
}

/// Assigning to `target` is refused where it is `global_id` or one of its fields.
pub open spec fn assign_target_check(target: Expr) -> Result<(), WgslError> {
    if names_global_id(target) {
        Err(WgslError::GlobalIdAssignment)
    } else if (target is Field && names_global_id(*target->base)) {
        Err(WgslError::GlobalIdComponentAssignment)
    } else {
        Ok(())
    }
}

/// The first assignment to `global_id` or to one of its fields that the search meets
/// in `e`, if any, plain (`=`) or compound (`+=` and the like). The search looks into the right side of assignments, both sides
/// of binary operations, blocks, call arguments, `if`, `while` and `for` (whose
/// bodies it reads only for expression statements) and indexing.
pub open spec fn global_id_check(e: Expr) -> Result<(), WgslError>
    decreases e,
{
    match e {
        Expr::Assign { left, right } => match assign_target_check(*left) {
            Err(x) => Err(x),
            Ok(_) => global_id_check(*right),
        },
        Expr::Binary { left, op, right } => match (if is_compound_assign_op(op@) {
            assign_target_check(*left)
        } else {
            Ok(())
        }) {
            Err(x) => Err(x),
            Ok(_) => match global_id_check(*left) {
                Err(x) => Err(x),
                Ok(_) => global_id_check(*right),
            },
        },
        Expr::Block(b) => stmts_global_id_check(b.stmts@, true),
        Expr::Call { func, args } => exprs_global_id_check(args@),
        Expr::If { cond, then_branch, else_branch } => match global_id_check(*cond) {
            Err(x) => Err(x),
            Ok(_) => match stmts_global_id_check(then_branch.stmts@, false) {
                Err(x) => Err(x),
                Ok(_) => match else_branch {
                    Some(el) => global_id_check(*el),
                    None => Ok(()),
                },
            },
        },
        Expr::While { cond, body } => match global_id_check(*cond) {
            Err(x) => Err(x),
            Ok(_) => stmts_global_id_check(body.stmts@, false),
        },
        Expr::ForLoop { pat, expr, body } => match global_id_check(*expr) {
            Err(x) => Err(x),
            Ok(_) => stmts_global_id_check(body.stmts@, false),
        },
        Expr::Index { expr, index } => match global_id_check(*expr) {
            Err(x) => Err(x),
            Ok(_) => global_id_check(*index),
        },
        _ => Ok(()),
    }
}

/// The search over expressions in order.
pub open spec fn exprs_global_id_check(s: Seq<Expr>) -> Result<(), WgslError>
    decreases s,
{
    if s.len() == 0 {
        Ok(())
    } else {
        match exprs_global_id_check(s.drop_last()) {
            Err(x) => Err(x),
            Ok(_) => global_id_check(s.last()),
        }
    }
}

/// The search over one statement; `with_locals` says whether the initializers of
/// `let` statements are read.
pub open spec fn stmt_global_id_check(s: Stmt, with_locals: bool) -> Result<(), WgslError>
    decreases s,
{
    match s {
        Stmt::Local { pat, init } => if with_locals {
            match init {
                Some(x) => global_id_check(x),
                None => Ok(()),
            }
        } else {
            Ok(())
        },
        Stmt::Expr { expr, semi } => global_id_check(expr),
        _ => Ok(()),
    }
}

/// The search over statements in order.
pub open spec fn stmts_global_id_check(s: Seq<Stmt>, with_locals: bool) -> Result<(), WgslError>
    decreases s,
{
    if s.len() == 0 {
        Ok(())
    } else {
        match stmts_global_id_check(s.drop_last(), with_locals) {
            Err(x) => Err(x),
            Ok(_) => stmt_global_id_check(s.last(), with_locals),
        }
    }
}

fn names_global_id_exec(e: &Expr) -> (res: bool)
    ensures
        res == names_global_id(*e),
{
    match e {
        Expr::Path(p) => {
            let n = p.segments.len();
            n > 0 && str_eq(p.segments[n - 1].ident.as_str(), "global_id")
        },
        _ => false,
    }
}

fn is_compound_assign_op_exec(op: &str) -> (res: bool)
    ensures
        res == is_compound_assign_op(op@),
{
    str_eq(op, "+=") || str_eq(op, "-=") || str_eq(op, "*=") || str_eq(op, "/=") || str_eq(op, "%=")
        || str_eq(op, "&=") || str_eq(op, "|=") || str_eq(op, "^=") || str_eq(op, "<<=") || str_eq(
        op,
        ">>=",
    )
}

fn check_assign_target(target: &Expr) -> (res: Result<(), WgslError>)
    ensures
        res == assign_target_check(*target),
{
    if names_global_id_exec(target) {
        return Err(WgslError::GlobalIdAssignment);
    }
    if let Expr::Field { base, member: _ } = target {
        if names_global_id_exec(base) {
            return Err(WgslError::GlobalIdComponentAssignment);
        }
    }
    Ok(())
}

/// Rejects any assignment to `global_id` or to one of its components within `expr`
/// (see `global_id_check`).
pub fn check_expr_for_global_id_assignment(expr: &Expr) -> (res: Result<(), WgslError>)
    ensures
        res == global_id_check(*expr),
    decreases expr, 0nat,
{
    match expr {
        Expr::Assign { left, right } => {
            check_assign_target(left)?;
            check_expr_for_global_id_assignment(right)
        },
        Expr::Binary { left, op, right } => {
            if is_compound_assign_op_exec(op.as_str()) {
                check_assign_target(left)?;
            }
            check_expr_for_global_id_assignment(left)?;
            check_expr_for_global_id_assignment(right)
        },
        Expr::Block(b) => {
            proof {
                assert(decreases_to!(*expr => *b));
                assert(decreases_to!(*b => b.stmts));
                assert(b.stmts@.subrange(0, b.stmts@.len() as int) =~= b.stmts@);
            }
            check_stmts_prefix(&b.stmts, b.stmts.len(), true)
        },
        Expr::Call { func: _, args } => {
            proof {
                assert(decreases_to!(*expr => *args));
                assert(args@.subrange(0, args@.len() as int) =~= args@);
            }
            check_exprs_prefix(args, args.len())
        },
        Expr::If { cond, then_branch, else_branch } => {
            check_expr_for_global_id_assignment(cond)?;
            proof {
                assert(decreases_to!(*expr => *then_branch));
                assert(decreases_to!(*then_branch => then_branch.stmts));
                assert(then_branch.stmts@.subrange(0, then_branch.stmts@.len() as int)
                    =~= then_branch.stmts@);
            }
            check_stmts_prefix(&then_branch.stmts, then_branch.stmts.len(), false)?;
            match else_branch {
                Some(el) => check_expr_for_global_id_assignment(el),
                None => Ok(()),
            }
        },
        Expr::While { cond, body } => {
            check_expr_for_global_id_assignment(cond)?;
            proof {
                assert(decreases_to!(*expr => *body));
                assert(decreases_to!(*body => body.stmts));
                assert(body.stmts@.subrange(0, body.stmts@.len() as int) =~= body.stmts@);
            }
            check_stmts_prefix(&body.stmts, body.stmts.len(), false)
        },
        Expr::ForLoop { pat: _, expr: iterated, body } => {
            check_expr_for_global_id_assignment(iterated)?;
            proof {
                assert(decreases_to!(*expr => *body));
                assert(decreases_to!(*body => body.stmts));
                assert(body.stmts@.subrange(0, body.stmts@.len() as int) =~= body.stmts@);
            }
            check_stmts_prefix(&body.stmts, body.stmts.len(), false)
        },
        Expr::Index { expr: base, index } => {
            check_expr_for_global_id_assignment(base)?;
            check_expr_for_global_id_assignment(index)
        },
        _ => Ok(()),
    }
}

fn check_exprs_prefix(list: &Vec<Expr>, k: usize) -> (res: Result<(), WgslError>)
    requires
        k <= list@.len(),
    ensures
        res == exprs_global_id_check(list@.subrange(0, k as int)),
    decreases list, k,
{
    if k == 0 {
        return Ok(());
    }
    assert(list@.subrange(0, k as int).drop_last() =~= list@.subrange(0, k - 1));
    check_exprs_prefix(list, k - 1)?;
    proof {
        assert(decreases_to!(*list => list@));
        assert(decreases_to!(list@ => list@[k - 1]));
    }
    check_expr_for_global_id_assignment(&list[k - 1])
}

fn check_stmt(s: &Stmt, with_locals: bool) -> (res: Result<(), WgslError>)
    ensures
        res == stmt_global_id_check(*s, with_locals),
    decreases s, 0nat,
{
    match s {
        Stmt::Local { pat: _, init } => {
            if with_locals {
                match init {
                    Some(x) => check_expr_for_global_id_assignment(x),
                    None => Ok(()),
                }
            } else {
                Ok(())
            }
        },
        Stmt::Expr { expr, semi: _ } => check_expr_for_global_id_assignment(expr),
        _ => Ok(()),
    }
}

fn check_stmts_prefix(list: &Vec<Stmt>, k: usize, with_locals: bool) -> (res: Result<(), WgslError>)
    requires
        k <= list@.len(),
    ensures
        res == stmts_global_id_check(list@.subrange(0, k as int), with_locals),
    decreases list, k,
{
    if k == 0 {
        return Ok(());
    }
    assert(list@.subrange(0, k as int).drop_last() =~= list@.subrange(0, k - 1));
    check_stmts_prefix(list, k - 1, with_locals)?;
    proof {
        assert(decreases_to!(*list => list@));
        assert(decreases_to!(list@ => list@[k - 1]));
    }
    check_stmt(&list[k - 1], with_locals)
}

/// Rejects any assignment to `global_id` or its components in the statements of a
/// block (see `stmts_global_id_check`).
pub fn validate_no_global_id_assignment(block: &Block) -> (res: Result<(), WgslError>)
    ensures
        res == stmts_global_id_check(block.stmts@, true),
{
    assert(block.stmts@.subrange(0, block.stmts@.len() as int) =~= block.stmts@);
    check_stmts_prefix(&block.stmts, block.stmts.len(), true)
}

/// The entry point's rules: exactly one parameter, which, when its type is a path,
/// is a `WgslGlobalId`; no return type; no assignment to `global_id`. The first
/// rule broken is the error.
pub open spec fn main_function_check(f: ItemFn) -> Result<(), WgslError> {
    if f.inputs@.len() != 1 {
        Err(WgslError::MainParameterCount)
    } else if (f.inputs@[0] matches FnArg::Typed { pat, ty } && ty matches RustType::Path(p)
        && p.segments@.len() > 0 && p.segments@.last().ident@ != "WgslGlobalId"@) {
        Err(WgslError::MainParameterType)
    } else if f.output is Some {
        Err(WgslError::MainReturnType)
    } else {
        stmts_global_id_check(f.block.stmts@, true)
    }
}

/// Checks the entry point against the rules of `main_function_check`.
pub fn validate_main_function(f: &ItemFn) -> (res: Result<(), WgslError>)
    ensures
        res == main_function_check(*f),
{
    if f.inputs.len() != 1 {
        return Err(WgslError::MainParameterCount);
    }
    if let FnArg::Typed { pat: _, ty } = &f.inputs[0] {
        if let RustType::Path(p) = ty {
            let n = p.segments.len();
            if n > 0 && !str_eq(p.segments[n - 1].ident.as_str(), "WgslGlobalId") {
                return Err(WgslError::MainParameterType);
            }
        }
    }
    if f.output.is_some() {
        return Err(WgslError::MainReturnType);
    }
    validate_no_global_id_assignment(&f.block)
}

} // verus!
