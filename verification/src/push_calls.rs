//! Finding out whether a module pushes values of a type to an output, which decides
//! whether that output needs an atomic counter.
use vstd::prelude::*;
use crate::syntax::{Expr, Item, ItemFn, ItemMod, ItemStruct, Stmt};
use crate::text::str_eq;
use crate::transform_wgsl_helper_methods::{generic_type_name, generic_type_name_exec};

verus! {

/// `e` is a call of a path ending in `push::<T>`, where the last segment of `T` is
/// `name`.
pub open spec fn is_push_call_for(e: Expr, name: Seq<char>) -> bool {
    match e {
        Expr::Call { func, args } => match *func {
            Expr::Path(p) => p.segments@.len() > 0 && p.segments@.last().ident@ == "push"@
                && generic_type_name(p.segments@.last().arguments) == Some(name),
            _ => false,
        },
        _ => false,
    }
}

/// The expressions that a walk of `e` visits, in the order visited: `e` itself first,
/// then, left to right, the elements of an array, both sides of a binary operation,
/// the statements of a block, the function and the arguments of a call, and the
/// condition and body of `if`, `while` and `for` (whose bodies it reads for
/// expression statements only) and the `else` branch. Other expressions are not
/// entered.
pub open spec fn expr_visits(e: Expr) -> Seq<Expr>
    decreases e,
{
    seq![e] + match e {
        Expr::Array(v) => exprs_visits(v@),
        Expr::Binary { left, op, right } => expr_visits(*left) + expr_visits(*right),
        Expr::Block(b) => stmts_visits(b.stmts@, true),
        Expr::Call { func, args } => expr_visits(*func) + exprs_visits(args@),
        Expr::If { cond, then_branch, else_branch } => expr_visits(*cond) + stmts_visits(
            then_branch.stmts@,
            false,
        ) + match else_branch {
            Some(x) => expr_visits(*x),
            None => Seq::empty(),
        },
        Expr::While { cond, body } => expr_visits(*cond) + stmts_visits(body.stmts@, false),
        Expr::ForLoop { pat, expr, body } => expr_visits(*expr) + stmts_visits(body.stmts@, false),
        _ => Seq::empty(),
    }
}

/// The walks of the expressions of `s`, one after another.
pub open spec fn exprs_visits(s: Seq<Expr>) -> Seq<Expr>
    decreases s,
{
    if s.len() == 0 {
        Seq::empty()
    } else {
        exprs_visits(s.drop_last()) + expr_visits(s.last())
    }
}

/// The walk of a statement: its expression, or, where `with_locals` holds, the
/// initializer of a `let`.
pub open spec fn stmt_visits(s: Stmt, with_locals: bool) -> Seq<Expr>
    decreases s,
{
    match s {
        Stmt::Local { pat, init } => if with_locals {
            match init {
                Some(x) => expr_visits(x),
                None => Seq::empty(),
            }
        } else {
            Seq::empty()
        },
        Stmt::Expr { expr, semi } => expr_visits(expr),
        _ => Seq::empty(),
    }
}

/// The walks of the statements of `s`, one after another.
pub open spec fn stmts_visits(s: Seq<Stmt>, with_locals: bool) -> Seq<Expr>
    decreases s,
{
    if s.len() == 0 {
        Seq::empty()
    } else {
        stmts_visits(s.drop_last(), with_locals) + stmt_visits(s.last(), with_locals)
    }
}

/// The expressions of a function's body in the order a walk visits them.
pub open spec fn function_visits(f: ItemFn) -> Seq<Expr> {
    stmts_visits(f.block.stmts@, true)
}

/// The expressions behind a list of references.
pub open spec fn derefs(s: Seq<&Expr>) -> Seq<Expr> {
    s.map_values(|r: &Expr| *r)
}

/// The body of a function pushes values of `name`: some visited expression is such
/// a push.
pub open spec fn function_pushes(f: ItemFn, name: Seq<char>) -> bool {
    exists|j: int| 0 <= j < function_visits(f).len() && is_push_call_for(#[trigger] function_visits(f)[j], name)
}

/// Some function among the items pushes values of `name`.
pub open spec fn items_push(s: Seq<Item>, name: Seq<char>) -> bool
    decreases s.len(),
{
    s.len() > 0 && (items_push(s.drop_last(), name) || (s.last() matches Item::Fn(f)
        && function_pushes(f, name)))
}

fn is_push_call_for_struct(e: &Expr, name: &str) -> (res: bool)
    ensures
        res == is_push_call_for(*e, name@),
{
    match e {
        Expr::Call { func, args: _ } => match &**func {
            Expr::Path(p) => {
                let n = p.segments.len();
                if n == 0 || !str_eq(p.segments[n - 1].ident.as_str(), "push") {
                    return false;
                }
                match generic_type_name_exec(&p.segments[n - 1].arguments) {
                    Some(t) => str_eq(t.as_str(), name),
                    None => false,
                }
            },
            _ => false,
        },
        _ => false,
    }
}

fn push_visits<'a>(e: &'a Expr, out: &mut Vec<&'a Expr>)
    ensures
        derefs(final(out)@) == derefs(old(out)@) + expr_visits(*e),
    decreases e, 0nat,
{
    out.push(e);
    proof {
        assert(derefs(out@) =~= derefs(old(out)@) + seq![*e]);
    }
    let ghost mid = derefs(out@);
    match e {
        Expr::Array(v) => {
            proof {
                assert(v@.subrange(0, v@.len() as int) =~= v@);
            }
            push_exprs_prefix(v, v.len(), out);
        },
        Expr::Binary { left, op: _, right } => {
            push_visits(left, out);
            push_visits(right, out);
        },
        Expr::Block(b) => {
            proof {
                assert(b.stmts@.subrange(0, b.stmts@.len() as int) =~= b.stmts@);
            }
            push_stmts_prefix(&b.stmts, b.stmts.len(), true, out);
        },
        Expr::Call { func, args } => {
            proof {
                assert(args@.subrange(0, args@.len() as int) =~= args@);
            }
            push_visits(func, out);
            push_exprs_prefix(args, args.len(), out);
        },
        Expr::If { cond, then_branch, else_branch } => {
            proof {
                assert(then_branch.stmts@.subrange(0, then_branch.stmts@.len() as int)
                    =~= then_branch.stmts@);
            }
            push_visits(cond, out);
            push_stmts_prefix(&then_branch.stmts, then_branch.stmts.len(), false, out);
            match else_branch {
                Some(x) => push_visits(x, out),
                None => {},
            }
        },
        Expr::While { cond, body } => {
            proof {
                assert(body.stmts@.subrange(0, body.stmts@.len() as int) =~= body.stmts@);
            }
            push_visits(cond, out);
            push_stmts_prefix(&body.stmts, body.stmts.len(), false, out);
        },
        Expr::ForLoop { pat: _, expr, body } => {
            proof {
                assert(body.stmts@.subrange(0, body.stmts@.len() as int) =~= body.stmts@);
            }
            push_visits(expr, out);
            push_stmts_prefix(&body.stmts, body.stmts.len(), false, out);
        },
        _ => {},
    }
    proof {
        assert(derefs(out@) =~= derefs(old(out)@) + expr_visits(*e));
    }
}

fn push_exprs_prefix<'a>(list: &'a Vec<Expr>, k: usize, out: &mut Vec<&'a Expr>)
    requires
        k <= list@.len(),
    ensures
        derefs(final(out)@) == derefs(old(out)@) + exprs_visits(list@.subrange(0, k as int)),
    decreases list, k,
{
    if k == 0 {
        assert(derefs(out@) =~= derefs(old(out)@) + exprs_visits(list@.subrange(0, 0)));
        return;
    }
    assert(list@.subrange(0, k as int).drop_last() =~= list@.subrange(0, k - 1));
    push_exprs_prefix(list, k - 1, out);
    proof {
        assert(decreases_to!(*list => list@));
        assert(decreases_to!(list@ => list@[k - 1]));
    }
    push_visits(&list[k - 1], out);
    assert(derefs(out@) =~= derefs(old(out)@) + exprs_visits(list@.subrange(0, k as int)));
}

fn push_stmt<'a>(s: &'a Stmt, with_locals: bool, out: &mut Vec<&'a Expr>)
    ensures
        derefs(final(out)@) == derefs(old(out)@) + stmt_visits(*s, with_locals),
    decreases s, 0nat,
{
    match s {
        Stmt::Local { pat: _, init } => {
            if with_locals {
                match init {
                    Some(x) => {
                        push_visits(x, out);
                        return;
                    },
                    None => {},
                }
            }
        },
        Stmt::Expr { expr, semi: _ } => {
            push_visits(expr, out);
            return;
        },
        _ => {},
    }
    assert(derefs(out@) =~= derefs(old(out)@) + stmt_visits(*s, with_locals));
}

fn push_stmts_prefix<'a>(list: &'a Vec<Stmt>, k: usize, with_locals: bool, out: &mut Vec<&'a Expr>)
    requires
        k <= list@.len(),
    ensures
        derefs(final(out)@) == derefs(old(out)@) + stmts_visits(list@.subrange(0, k as int), with_locals),
    decreases list, k,
{
    if k == 0 {
        assert(derefs(out@) =~= derefs(old(out)@) + stmts_visits(list@.subrange(0, 0), with_locals));
        return;
    }
    assert(list@.subrange(0, k as int).drop_last() =~= list@.subrange(0, k - 1));
    push_stmts_prefix(list, k - 1, with_locals, out);
    proof {
        assert(decreases_to!(*list => list@));
        assert(decreases_to!(list@ => list@[k - 1]));
    }
    push_stmt(&list[k - 1], with_locals, out);
    assert(derefs(out@) =~= derefs(old(out)@) + stmts_visits(list@.subrange(0, k as int), with_locals));
}

/// The expressions of the body of `function`, in the order a walk visits them (see
/// `expr_visits`): each expression before the ones inside it, the function of a call
/// before its arguments.
pub fn visit_function_body(function: &ItemFn) -> (res: Vec<&Expr>)
    ensures
        derefs(res@) == function_visits(*function),
{
    let mut out: Vec<&Expr> = Vec::new();
    assert(function.block.stmts@.subrange(0, function.block.stmts@.len() as int)
        =~= function.block.stmts@);
    assert(derefs(out@) =~= Seq::<Expr>::empty());
    push_stmts_prefix(&function.block.stmts, function.block.stmts.len(), true, &mut out);
    assert(derefs(out@) =~= function_visits(*function));
    out
}

/// Whether some expression that a walk of the body of `f` visits is a push for
/// `name`.
fn function_pushes_exec(f: &ItemFn, name: &str) -> (res: bool)
    ensures
        res == function_pushes(*f, name@),
{
    let visited = visit_function_body(f);
    let n = visited.len();
    let mut j: usize = 0;
    while j < n
        invariant
            n == visited@.len(),
            derefs(visited@) == function_visits(*f),
            j <= n,
            forall|m: int| 0 <= m < j ==> !is_push_call_for(#[trigger] function_visits(*f)[m], name@),
        decreases n - j,
    {
        assert(function_visits(*f)[j as int] == *visited@[j as int]);
        if is_push_call_for_struct(visited[j], name) {
            return true;
        }
        j = j + 1;
    }
    false
}

/// Whether some function of the module pushes values of the structure, so that its
/// output needs an atomic counter.
pub fn needs_atomic_counter(structure: &ItemStruct, module: &ItemMod) -> (res: bool)
    ensures
        res == (module.content matches Some(items) && items_push(items@, structure.name@)),
{
    match &module.content {
        None => false,
        Some(items) => {
            let n = items.len();
            let mut found = false;
            let mut i: usize = 0;
            while i < n
                invariant
                    n == items@.len(),
                    i <= n,
                    found == items_push(items@.subrange(0, i as int), structure.name@),
                decreases n - i,
            {
                proof {
                    assert(items@.subrange(0, i + 1).drop_last() =~= items@.subrange(0, i as int));
                }
                if let Item::Fn(f) = &items[i] {
                    if function_pushes_exec(f, structure.name.as_str()) {
                        found = true;
                    }
                }
                i = i + 1;
            }
            assert(items@.subrange(0, n as int) =~= items@);
            found
        },
    }
}

} // verus!
