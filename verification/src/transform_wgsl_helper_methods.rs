//! Rewriting the library's helper calls (`WgslVecInput::vec_val::<T>(i)`,
//! `WgslOutput::push::<T>(v)`, ...) into the WGSL expressions they stand for.
//!
//! ```text
//! WgslVecInput::vec_len::<T>()  =>  T_INPUT_ARRAY_LENGTH
//! WgslVecInput::vec_val::<T>(i) =>  t_input_array[i]
//! WgslOutput::push::<T>(v)      =>  { let t_output_array_index = atomicAdd(&t_counter, 1u);
//!                                     if t_output_array_index < T_OUTPUT_ARRAY_LENGTH {
//!                                       t_output_array[t_output_array_index] = v; } }
//! WgslOutput::len::<T>()        =>  T_OUTPUT_ARRAY_LENGTH
//! WgslOutput::set::<T>(i, v)    =>  t_output_array[i] = v
//! ```
//! (`T` upper-cased, `t` lower-cased.) Calls are rewritten bottom-up, so helper
//! calls in the arguments of another call are rewritten first.
use vstd::prelude::*;
use crate::custom_type_name::{
    counter_name, index_name, input_array_length_name, input_array_name, output_array_length_name,
    output_array_name, CustomTypeName,
};
use crate::custom_types::{AllowedRustTypes, CustomType, CustomTypeKind};
use crate::errors::WgslError;
use crate::syntax::{
    Block, Expr, FieldValue, GenericArgument, Item, ItemConst, ItemFn, ItemMod, Lit, Pat,
    PathArguments, PathSegment, RustPath, RustType, Stmt,
};
use crate::text::{owned, str_eq};

verus! {

/// The helper module a call goes to.
#[derive(Debug, Clone, Copy, PartialEq, Eq, Structural)]
pub enum WgslHelperCategory {
    VecInput,
    Output,
    _Invalid,
}

pub open spec fn helper_category_named(n: Seq<char>) -> Option<WgslHelperCategory> {
    if n == "WgslVecInput"@ {
        Some(WgslHelperCategory::VecInput)
    } else if n == "WgslOutput"@ {
        Some(WgslHelperCategory::Output)
    } else {
        None
    }
}

impl WgslHelperCategory {
    pub fn from_ident(ident: &str) -> (res: Option<WgslHelperCategory>)
        ensures
            res == helper_category_named(ident@),
    {
        if str_eq(ident, "WgslVecInput") {
            Some(WgslHelperCategory::VecInput)
        } else if str_eq(ident, "WgslOutput") {
            Some(WgslHelperCategory::Output)
        } else {
            None
        }
    }
}

/// The helper method a call names.
#[derive(Debug, Clone, Copy, PartialEq, Eq, Structural)]
pub enum WgslHelperMethodName {
    VecLen,
    VecVal,
    Push,
    Len,
    SetValue,
    Get,
    _Invalid,
}

pub open spec fn helper_method_named(n: Seq<char>) -> Option<WgslHelperMethodName> {
    if n == "vec_len"@ {
        Some(WgslHelperMethodName::VecLen)
    } else if n == "vec_val"@ {
        Some(WgslHelperMethodName::VecVal)
    } else if n == "push"@ {
        Some(WgslHelperMethodName::Push)
    } else if n == "len"@ {
        Some(WgslHelperMethodName::Len)
    } else if n == "set"@ {
        Some(WgslHelperMethodName::SetValue)
    } else if n == "get"@ {
        Some(WgslHelperMethodName::Get)
    } else {
        None
    }
}

impl WgslHelperMethodName {
    pub fn from_ident(ident: &str) -> (res: Option<WgslHelperMethodName>)
        ensures
            res == helper_method_named(ident@),
    {
        if str_eq(ident, "vec_len") {
            Some(WgslHelperMethodName::VecLen)
        } else if str_eq(ident, "vec_val") {
            Some(WgslHelperMethodName::VecVal)
        } else if str_eq(ident, "push") {
            Some(WgslHelperMethodName::Push)
        } else if str_eq(ident, "len") {
            Some(WgslHelperMethodName::Len)
        } else if str_eq(ident, "set") {
            Some(WgslHelperMethodName::SetValue)
        } else if str_eq(ident, "get") {
            Some(WgslHelperMethodName::Get)
        } else {
            None
        }
    }
}

/// The expansion a helper call gets.
#[derive(Debug, Clone, Copy, PartialEq, Eq, Structural)]
pub enum ToExpandedFormatMethodKind {
    InputLen,
    InputVal,
    OutputPush,
    OutputLen,
    OutputSet,
}

/// Which pairs of helper module and method have an expansion.
pub open spec fn expand_format(
    category: WgslHelperCategory,
    method: WgslHelperMethodName,
) -> Option<ToExpandedFormatMethodKind> {
    match (category, method) {
        (WgslHelperCategory::VecInput, WgslHelperMethodName::VecLen) => Some(
            ToExpandedFormatMethodKind::InputLen,
        ),
        (WgslHelperCategory::VecInput, WgslHelperMethodName::VecVal) => Some(
            ToExpandedFormatMethodKind::InputVal,
        ),
        (WgslHelperCategory::Output, WgslHelperMethodName::Push) => Some(
            ToExpandedFormatMethodKind::OutputPush,
        ),
        (WgslHelperCategory::Output, WgslHelperMethodName::Len) => Some(
            ToExpandedFormatMethodKind::OutputLen,
        ),
        (WgslHelperCategory::Output, WgslHelperMethodName::SetValue) => Some(
            ToExpandedFormatMethodKind::OutputSet,
        ),
        _ => None,
    }
}

pub fn choose_expand_format(
    category: WgslHelperCategory,
    method: WgslHelperMethodName,
) -> (res: Option<ToExpandedFormatMethodKind>)
    ensures
        res == expand_format(category, method),
{
    match (category, method) {
        (WgslHelperCategory::VecInput, WgslHelperMethodName::VecLen) => Some(
            ToExpandedFormatMethodKind::InputLen,
        ),
        (WgslHelperCategory::VecInput, WgslHelperMethodName::VecVal) => Some(
            ToExpandedFormatMethodKind::InputVal,
        ),
        (WgslHelperCategory::Output, WgslHelperMethodName::Push) => Some(
            ToExpandedFormatMethodKind::OutputPush,
        ),
        (WgslHelperCategory::Output, WgslHelperMethodName::Len) => Some(
            ToExpandedFormatMethodKind::OutputLen,
        ),
        (WgslHelperCategory::Output, WgslHelperMethodName::SetValue) => Some(
            ToExpandedFormatMethodKind::OutputSet,
        ),
        _ => None,
    }
}

/// The name of the type in the first generic argument, `T` in `::<T>`, when it is
/// a path.
pub open spec fn generic_type_name(args: PathArguments) -> Option<Seq<char>> {
    match args {
        PathArguments::AngleBracketed(list) => {
            if list@.len() == 0 {
                None
            } else {
                match list@[0] {
                    GenericArgument::Type(t) => match t {
                        RustType::Path(tp) => {
                            if tp.segments@.len() == 0 {
                                None
                            } else {
                                Some(tp.segments@.last().ident@)
                            }
                        },
                        _ => None,
                    },
                    _ => None,
                }
            }
        },
        _ => None,
    }
}

/// The index of the first user type named `n`.
pub open spec fn custom_index(custom: Seq<CustomType>, n: Seq<char>) -> Option<int>
    decreases custom.len(),
{
    if custom.len() == 0 {
        None
    } else {
        match custom_index(custom.drop_last(), n) {
            Some(i) => Some(i),
            None => if custom.last().name.name@ == n {
                Some(custom.len() - 1)
            } else {
                None
            },
        }
    }
}

/// The expansion that a call of `func` gets and the index of its user type, when
/// `func` is a helper path: a helper module first, a helper method last, a user type
/// as its first generic argument, and a pair of module and method that expands.
pub open spec fn helper_target(func: Expr, custom: Seq<CustomType>) -> Option<(ToExpandedFormatMethodKind, int)> {
    match func {
        Expr::Path(p) => {
            if p.segments@.len() == 0 {
                None
            } else {
                match (
                    helper_category_named(p.segments@[0].ident@),
                    helper_method_named(p.segments@.last().ident@),
                    generic_type_name(p.segments@.last().arguments),
                ) {
                    (Some(c), Some(m), Some(n)) => match custom_index(custom, n) {
                        None => None,
                        Some(j) => match expand_format(c, m) {
                            None => None,
                            Some(k) => Some((k, j)),
                        },
                    },
                    _ => None,
                }
            }
        },
        _ => None,
    }
}

/// The error of a helper call with too few arguments for its expansion.
pub open spec fn missing_args_error(kind: ToExpandedFormatMethodKind, n: nat) -> Option<WgslError> {
    match kind {
        ToExpandedFormatMethodKind::InputVal => if n < 1 {
            Some(WgslError::MissingVecValArgument)
        } else {
            None
        },
        ToExpandedFormatMethodKind::OutputPush => if n < 1 {
            Some(WgslError::MissingPushArgument)
        } else {
            None
        },
        ToExpandedFormatMethodKind::OutputSet => if n < 2 {
            Some(WgslError::MissingSetArguments)
        } else {
            None
        },
        _ => None,
    }
}

/// `e` is the plain name `n`.
pub open spec fn is_name_expr(e: Expr, n: Seq<char>) -> bool {
    match e {
        Expr::Path(p) => {
            &&& !p.leading_colon
            &&& p.segments@.len() == 1
            &&& p.segments@[0].ident@ == n
            &&& p.segments@[0].arguments is NoArgs
        },
        _ => false,
    }
}

/// `let t_output_array_index = atomicAdd(&t_counter, 1u);`
pub open spec fn counter_increment_shape(s: Stmt, t: CustomTypeName) -> bool {
    match s {
        Stmt::Local { pat, init } => {
            &&& pat matches Pat::Ident(n) && n@ == index_name(t.lower@)
            &&& match init {
                Some(c) => match c {
                    Expr::Call { func, args } => {
                        &&& is_name_expr(*func, "atomicAdd"@)
                        &&& args@.len() == 2
                        &&& match args@[0] {
                            Expr::Reference { mutable, expr } => !mutable && is_name_expr(
                                *expr,
                                counter_name(t.lower@),
                            ),
                            _ => false,
                        }
                        &&& args@[1] matches Expr::Lit(Lit::Int(one)) && one@ == "1u"@
                    },
                    _ => false,
                },
                None => false,
            }
        },
        _ => false,
    }
}

/// `t_output_array[t_output_array_index] = v;`
pub open spec fn store_shape(s: Stmt, t: CustomTypeName) -> bool {
    match s {
        Stmt::Expr { expr, semi } => semi && match expr {
            Expr::Assign { left, right } => match *left {
                Expr::Index { expr, index } => is_name_expr(*expr, output_array_name(t.lower@))
                    && is_name_expr(*index, index_name(t.lower@)),
                _ => false,
            },
            _ => false,
        },
        _ => false,
    }
}

/// `if t_output_array_index < T_OUTPUT_ARRAY_LENGTH { store }` as the block's value.
pub open spec fn guarded_store_shape(s: Stmt, t: CustomTypeName) -> bool {
    match s {
        Stmt::Expr { expr, semi } => !semi && match expr {
            Expr::If { cond, then_branch, else_branch } => {
                &&& else_branch is None
                &&& match *cond {
                    Expr::Binary { left, op, right } => is_name_expr(*left, index_name(t.lower@))
                        && op@ == "<"@ && is_name_expr(*right, output_array_length_name(t.upper@)),
                    _ => false,
                }
                &&& then_branch.stmts@.len() == 1
                &&& store_shape(then_branch.stmts@[0], t)
            },
            _ => false,
        },
        _ => false,
    }
}

/// The shape of each expansion, apart from the arguments it takes over.
pub open spec fn expansion_shape(kind: ToExpandedFormatMethodKind, t: CustomTypeName, b: Expr) -> bool {
    match kind {
        ToExpandedFormatMethodKind::InputLen => is_name_expr(b, input_array_length_name(t.upper@)),
        ToExpandedFormatMethodKind::OutputLen => is_name_expr(b, output_array_length_name(t.upper@)),
        ToExpandedFormatMethodKind::InputVal => match b {
            Expr::Index { expr, index } => is_name_expr(*expr, input_array_name(t.lower@)),
            _ => false,
        },
        ToExpandedFormatMethodKind::OutputSet => match b {
            Expr::Assign { left, right } => match *left {
                Expr::Index { expr, index } => is_name_expr(*expr, output_array_name(t.lower@)),
                _ => false,
            },
            _ => false,
        },
        ToExpandedFormatMethodKind::OutputPush => match b {
            Expr::Block(blk) => {
                &&& blk.stmts@.len() == 2
                &&& counter_increment_shape(blk.stmts@[0], t)
                &&& guarded_store_shape(blk.stmts@[1], t)
            },
            _ => false,
        },
    }
}

/// The expansion takes over the call's first argument.
pub open spec fn takes_first_arg(kind: ToExpandedFormatMethodKind) -> bool {
    kind == ToExpandedFormatMethodKind::InputVal || kind == ToExpandedFormatMethodKind::OutputPush
        || kind == ToExpandedFormatMethodKind::OutputSet
}

/// Where the first argument stands in an expansion: the index of `vec_val` and
/// `set`, the stored value of `push`.
pub open spec fn first_arg_slot(kind: ToExpandedFormatMethodKind, b: Expr) -> Expr {
    match kind {
        ToExpandedFormatMethodKind::InputVal => match b {
            Expr::Index { expr, index } => *index,
            _ => b,
        },
        ToExpandedFormatMethodKind::OutputSet => match b {
            Expr::Assign { left, right } => match *left {
                Expr::Index { expr, index } => *index,
                _ => b,
            },
            _ => b,
        },
        ToExpandedFormatMethodKind::OutputPush => match b {
            Expr::Block(blk) => match blk.stmts@[1] {
                Stmt::Expr { expr, semi } => match expr {
                    Expr::If { cond, then_branch, else_branch } => match then_branch.stmts@[0] {
                        Stmt::Expr { expr, semi } => match expr {
                            Expr::Assign { left, right } => *right,
                            _ => b,
                        },
                        _ => b,
                    },
                    _ => b,
                },
                _ => b,
            },
            _ => b,
        },
        _ => b,
    }
}

/// Where the second argument of `set` stands: the assigned value.
pub open spec fn second_arg_slot(b: Expr) -> Expr {
    match b {
        Expr::Assign { left, right } => *right,
        _ => b,
    }
}

/// The first of two possible errors.
pub open spec fn first_error(x: Option<WgslError>, y: Option<WgslError>) -> Option<WgslError> {
    if x is Some {
        x
    } else {
        y
    }
}

/// The first error met while rewriting `a`: sub-expressions are rewritten first, in
/// source order, then the call itself, which fails where a helper call lacks an
/// argument its expansion needs.
pub open spec fn rewrite_error(a: Expr, custom: Seq<CustomType>) -> Option<WgslError>
    decreases a,
{
    match a {
        Expr::Array(v) => exprs_rewrite_error(v@, custom),
        Expr::Assign { left, right } => first_error(
            rewrite_error(*left, custom),
            rewrite_error(*right, custom),
        ),
        Expr::Binary { left, op, right } => first_error(
            rewrite_error(*left, custom),
            rewrite_error(*right, custom),
        ),
        Expr::Block(blk) => stmts_rewrite_error(blk.stmts@, custom),
        Expr::Break(v) => match v {
            Some(x) => rewrite_error(*x, custom),
            None => None,
        },
        Expr::Call { func, args } => match first_error(
            rewrite_error(*func, custom),
            exprs_rewrite_error(args@, custom),
        ) {
            Some(x) => Some(x),
            None => match helper_target(*func, custom) {
                Some((kind, j)) => missing_args_error(kind, args@.len()),
                None => None,
            },
        },
        Expr::Field { base, member } => rewrite_error(*base, custom),
        Expr::ForLoop { pat, expr, body } => first_error(
            rewrite_error(*expr, custom),
            stmts_rewrite_error(body.stmts@, custom),
        ),
        Expr::Range { start, end, closed } => first_error(
            match start {
                Some(x) => rewrite_error(*x, custom),
                None => None,
            },
            match end {
                Some(x) => rewrite_error(*x, custom),
                None => None,
            },
        ),
        Expr::Group(x) => rewrite_error(*x, custom),
        Expr::If { cond, then_branch, else_branch } => first_error(
            first_error(rewrite_error(*cond, custom), stmts_rewrite_error(then_branch.stmts@, custom)),
            match else_branch {
                Some(x) => rewrite_error(*x, custom),
                None => None,
            },
        ),
        Expr::Index { expr, index } => first_error(
            rewrite_error(*expr, custom),
            rewrite_error(*index, custom),
        ),
        Expr::Loop(blk) => stmts_rewrite_error(blk.stmts@, custom),
        Expr::Paren(x) => rewrite_error(*x, custom),
        Expr::Reference { mutable, expr } => rewrite_error(*expr, custom),
        Expr::Return(v) => match v {
            Some(x) => rewrite_error(*x, custom),
            None => None,
        },
        Expr::Struct { path, fields } => field_values_rewrite_error(fields@, custom),
        Expr::Unary { op, expr } => rewrite_error(*expr, custom),
        Expr::While { cond, body } => first_error(
            rewrite_error(*cond, custom),
            stmts_rewrite_error(body.stmts@, custom),
        ),
        _ => None,
    }
}

pub open spec fn exprs_rewrite_error(s: Seq<Expr>, custom: Seq<CustomType>) -> Option<WgslError>
    decreases s,
{
    if s.len() == 0 {
        None
    } else {
        first_error(exprs_rewrite_error(s.drop_last(), custom), rewrite_error(s.last(), custom))
    }
}

pub open spec fn field_values_rewrite_error(s: Seq<FieldValue>, custom: Seq<CustomType>) -> Option<WgslError>
    decreases s,
{
    if s.len() == 0 {
        None
    } else {
        first_error(
            field_values_rewrite_error(s.drop_last(), custom),
            rewrite_error(s.last().expr, custom),
        )
    }
}

pub open spec fn stmt_rewrite_error(s: Stmt, custom: Seq<CustomType>) -> Option<WgslError>
    decreases s,
{
    match s {
        Stmt::Local { pat, init } => match init {
            Some(x) => rewrite_error(x, custom),
            None => None,
        },
        Stmt::Expr { expr, semi } => rewrite_error(expr, custom),
        _ => None,
    }
}

pub open spec fn stmts_rewrite_error(s: Seq<Stmt>, custom: Seq<CustomType>) -> Option<WgslError>
    decreases s,
{
    if s.len() == 0 {
        None
    } else {
        first_error(stmts_rewrite_error(s.drop_last(), custom), stmt_rewrite_error(s.last(), custom))
    }
}

/// `b` is what rewriting `a` gives: the same expression with every helper call
/// replaced by its expansion, which takes over the call's rewritten arguments.
pub open spec fn rewrites_to(a: Expr, b: Expr, custom: Seq<CustomType>) -> bool
    decreases a,
{
    match a {
        Expr::Array(v) => match b {
            Expr::Array(w) => exprs_rewrite_to(v@, w@, custom),
            _ => false,
        },
        Expr::Assign { left, right } => match b {
            Expr::Assign { left: l2, right: r2 } => rewrites_to(*left, *l2, custom) && rewrites_to(
                *right,
                *r2,
                custom,
            ),
            _ => false,
        },
        Expr::Binary { left, op, right } => match b {
            Expr::Binary { left: l2, op: o2, right: r2 } => o2 == op && rewrites_to(*left, *l2, custom)
                && rewrites_to(*right, *r2, custom),
            _ => false,
        },
        Expr::Block(blk) => match b {
            Expr::Block(b2) => stmts_rewrite_to(blk.stmts@, b2.stmts@, custom),
            _ => false,
        },
        Expr::Break(v) => match b {
            Expr::Break(w) => match v {
                Some(x) => match w {
                    Some(y) => rewrites_to(*x, *y, custom),
                    None => false,
                },
                None => w is None,
            },
            _ => false,
        },
        Expr::Call { func, args } => match helper_target(*func, custom) {
            Some((kind, j)) => {
                &&& 0 <= j < custom.len()
                &&& expansion_shape(kind, custom[j].name, b)
                &&& takes_first_arg(kind) ==> args@.len() >= 1 && rewrites_to(
                    args@[0],
                    first_arg_slot(kind, b),
                    custom,
                )
                &&& kind == ToExpandedFormatMethodKind::OutputSet ==> args@.len() >= 2 && rewrites_to(
                    args@[1],
                    second_arg_slot(b),
                    custom,
                )
            },
            None => match b {
                Expr::Call { func: f2, args: a2 } => rewrites_to(*func, *f2, custom)
                    && exprs_rewrite_to(args@, a2@, custom),
                _ => false,
            },
        },
        Expr::Field { base, member } => match b {
            Expr::Field { base: b2, member: m2 } => m2 == member && rewrites_to(*base, *b2, custom),
            _ => false,
        },
        Expr::ForLoop { pat, expr, body } => match b {
            Expr::ForLoop { pat: p2, expr: e2, body: body2 } => p2 == pat && rewrites_to(*expr, *e2, custom)
                && stmts_rewrite_to(body.stmts@, body2.stmts@, custom),
            _ => false,
        },
        Expr::Range { start, end, closed } => match b {
            Expr::Range { start: s2, end: e2, closed: c2 } => {
                &&& c2 == closed
                &&& match start {
                    Some(x) => match s2 {
                        Some(y) => rewrites_to(*x, *y, custom),
                        None => false,
                    },
                    None => s2 is None,
                }
                &&& match end {
                    Some(x) => match e2 {
                        Some(y) => rewrites_to(*x, *y, custom),
                        None => false,
                    },
                    None => e2 is None,
                }
            },
            _ => false,
        },
        Expr::Group(x) => match b {
            Expr::Group(y) => rewrites_to(*x, *y, custom),
            _ => false,
        },
        Expr::If { cond, then_branch, else_branch } => match b {
            Expr::If { cond: c2, then_branch: t2, else_branch: e2 } => {
                &&& rewrites_to(*cond, *c2, custom)
                &&& stmts_rewrite_to(then_branch.stmts@, t2.stmts@, custom)
                &&& match else_branch {
                    Some(x) => match e2 {
                        Some(y) => rewrites_to(*x, *y, custom),
                        None => false,
                    },
                    None => e2 is None,
                }
            },
            _ => false,
        },
        Expr::Index { expr, index } => match b {
            Expr::Index { expr: e2, index: i2 } => rewrites_to(*expr, *e2, custom) && rewrites_to(
                *index,
                *i2,
                custom,
            ),
            _ => false,
        },
        Expr::Loop(blk) => match b {
            Expr::Loop(b2) => stmts_rewrite_to(blk.stmts@, b2.stmts@, custom),
            _ => false,
        },
        Expr::Paren(x) => match b {
            Expr::Paren(y) => rewrites_to(*x, *y, custom),
            _ => false,
        },
        Expr::Reference { mutable, expr } => match b {
            Expr::Reference { mutable: m2, expr: e2 } => m2 == mutable && rewrites_to(*expr, *e2, custom),
            _ => false,
        },
        Expr::Return(v) => match b {
            Expr::Return(w) => match v {
                Some(x) => match w {
                    Some(y) => rewrites_to(*x, *y, custom),
                    None => false,
                },
                None => w is None,
            },
            _ => false,
        },
        Expr::Struct { path, fields } => match b {
            Expr::Struct { path: p2, fields: f2 } => p2 == path && field_values_rewrite_to(
                fields@,
                f2@,
                custom,
            ),
            _ => false,
        },
        Expr::Unary { op, expr } => match b {
            Expr::Unary { op: o2, expr: e2 } => o2 == op && rewrites_to(*expr, *e2, custom),
            _ => false,
        },
        Expr::While { cond, body } => match b {
            Expr::While { cond: c2, body: body2 } => rewrites_to(*cond, *c2, custom) && stmts_rewrite_to(
                body.stmts@,
                body2.stmts@,
                custom,
            ),
            _ => false,
        },
        _ => b == a,
    }
}

pub open spec fn exprs_rewrite_to(s: Seq<Expr>, t: Seq<Expr>, custom: Seq<CustomType>) -> bool
    decreases s,
{
    &&& s.len() == t.len()
    &&& s.len() > 0 ==> exprs_rewrite_to(s.drop_last(), t.drop_last(), custom) && rewrites_to(
        s.last(),
        t.last(),
        custom,
    )
}

pub open spec fn field_values_rewrite_to(s: Seq<FieldValue>, t: Seq<FieldValue>, custom: Seq<CustomType>) -> bool
    decreases s,
{
    &&& s.len() == t.len()
    &&& s.len() > 0 ==> field_values_rewrite_to(s.drop_last(), t.drop_last(), custom)
        && t.last().member == s.last().member && rewrites_to(s.last().expr, t.last().expr, custom)
}

pub open spec fn stmt_rewrites_to(s: Stmt, t: Stmt, custom: Seq<CustomType>) -> bool
    decreases s,
{
    match s {
        Stmt::Local { pat, init } => match t {
            Stmt::Local { pat: p2, init: i2 } => p2 == pat && match init {
                Some(x) => match i2 {
                    Some(y) => rewrites_to(x, y, custom),
                    None => false,
                },
                None => i2 is None,
            },
            _ => false,
        },
        Stmt::Expr { expr, semi } => match t {
            Stmt::Expr { expr: e2, semi: s2 } => s2 == semi && rewrites_to(expr, e2, custom),
            _ => false,
        },
        _ => t == s,
    }
}

pub open spec fn stmts_rewrite_to(s: Seq<Stmt>, t: Seq<Stmt>, custom: Seq<CustomType>) -> bool
    decreases s,
{
    &&& s.len() == t.len()
    &&& s.len() > 0 ==> stmts_rewrite_to(s.drop_last(), t.drop_last(), custom) && stmt_rewrites_to(
        s.last(),
        t.last(),
        custom,
    )
}

/// What rewriting `a` returns: the rewritten expression, or the first error.
pub open spec fn rewrite_outcome(a: Expr, res: Result<Expr, WgslError>, custom: Seq<CustomType>) -> bool {
    match res {
        Ok(b) => rewrite_error(a, custom) is None && rewrites_to(a, b, custom),
        Err(x) => rewrite_error(a, custom) == Some(x),
    }
}

pub open spec fn exprs_rewrite_outcome(a: Seq<Expr>, res: Result<Vec<Expr>, WgslError>, custom: Seq<CustomType>) -> bool {
    match res {
        Ok(b) => exprs_rewrite_error(a, custom) is None && exprs_rewrite_to(a, b@, custom),
        Err(x) => exprs_rewrite_error(a, custom) == Some(x),
    }
}

pub open spec fn field_values_rewrite_outcome(
    a: Seq<FieldValue>,
    res: Result<Vec<FieldValue>, WgslError>,
    custom: Seq<CustomType>,
) -> bool {
    match res {
        Ok(b) => field_values_rewrite_error(a, custom) is None && field_values_rewrite_to(a, b@, custom),
        Err(x) => field_values_rewrite_error(a, custom) == Some(x),
    }
}

pub open spec fn stmt_rewrite_outcome(a: Stmt, res: Result<Stmt, WgslError>, custom: Seq<CustomType>) -> bool {
    match res {
        Ok(b) => stmt_rewrite_error(a, custom) is None && stmt_rewrites_to(a, b, custom),
        Err(x) => stmt_rewrite_error(a, custom) == Some(x),
    }
}

pub open spec fn stmts_rewrite_outcome(a: Seq<Stmt>, res: Result<Vec<Stmt>, WgslError>, custom: Seq<CustomType>) -> bool {
    match res {
        Ok(b) => stmts_rewrite_error(a, custom) is None && stmts_rewrite_to(a, b@, custom),
        Err(x) => stmts_rewrite_error(a, custom) == Some(x),
    }
}

fn custom_index_prefix(custom: &Vec<CustomType>, n: &str, k: usize) -> (res: Option<usize>)
    requires
        k <= custom@.len(),
    ensures
        match res {
            Some(i) => custom_index(custom@.subrange(0, k as int), n@) == Some(i as int),
            None => custom_index(custom@.subrange(0, k as int), n@) is None,
        },
    decreases k,
{
    if k == 0 {
        return None;
    }
    assert(custom@.subrange(0, k as int).drop_last() =~= custom@.subrange(0, k - 1));
    match custom_index_prefix(custom, n, k - 1) {
        Some(i) => Some(i),
        None => {
            if str_eq(custom[k - 1].name.name.as_str(), n) {
                Some(k - 1)
            } else {
                None
            }
        },
    }
}

pub(crate) fn generic_type_name_exec(args: &PathArguments) -> (res: Option<&String>)
    ensures
        match res {
            Some(n) => generic_type_name(*args) == Some(n@),
            None => generic_type_name(*args) is None,
        },
{
    match args {
        PathArguments::AngleBracketed(list) => {
            if list.len() == 0 {
                None
            } else {
                match &list[0] {
                    GenericArgument::Type(t) => match t {
                        RustType::Path(tp) => {
                            let n = tp.segments.len();
                            if n == 0 {
                                None
                            } else {
                                Some(&tp.segments[n - 1].ident)
                            }
                        },
                        _ => None,
                    },
                    _ => None,
                }
            }
        },
        _ => None,
    }
}

/// The helper module, method and expansion of a call of `func`, with the index of
/// its user type (see `helper_target`).
fn helper_target_exec(func: &Expr, custom: &Vec<CustomType>) -> (res: Option<
    (WgslHelperCategory, WgslHelperMethodName, ToExpandedFormatMethodKind, usize),
>)
    ensures
        match res {
            Some((c, m, k, j)) => helper_target(*func, custom@) == Some((k, j as int)) && j
                < custom@.len(),
            None => helper_target(*func, custom@) is None,
        },
{
    match func {
        Expr::Path(p) => {
            let n = p.segments.len();
            if n == 0 {
                return None;
            }
            let category = WgslHelperCategory::from_ident(p.segments[0].ident.as_str());
            let method = WgslHelperMethodName::from_ident(p.segments[n - 1].ident.as_str());
            let generic_name = generic_type_name_exec(&p.segments[n - 1].arguments);
            match (category, method, generic_name) {
                (Some(c), Some(m), Some(t)) => {
                    assert(custom@.subrange(0, custom@.len() as int) =~= custom@);
                    match custom_index_prefix(custom, t.as_str(), custom.len()) {
                        None => None,
                        Some(j) => {
                            proof {
                                lemma_custom_index_in_range(custom@, t@);
                            }
                            match choose_expand_format(c, m) {
                                None => None,
                                Some(k) => Some((c, m, k, j)),
                            }
                        },
                    }
                },
                _ => None,
            }
        },
        _ => None,
    }
}

proof fn lemma_custom_index_in_range(custom: Seq<CustomType>, n: Seq<char>)
    ensures
        custom_index(custom, n) matches Some(j) ==> 0 <= j < custom.len() && custom[j].name.name@
            == n,
    decreases custom.len(),
{
    if custom.len() > 0 {
        lemma_custom_index_in_range(custom.drop_last(), n);
    }
}

/// A helper call whose expansion has been chosen, with its (rewritten) arguments.
pub struct WgslHelperMethod<'a> {
    pub category: WgslHelperCategory,
    pub method: WgslHelperMethodName,
    pub t_def: &'a CustomType,
    pub arg1: Option<Expr>,
    pub arg2: Option<Expr>,
    pub method_expander_kind: Option<ToExpandedFormatMethodKind>,
}

/// The error of an expansion whose arguments are missing.
pub open spec fn missing_arg_error(kind: ToExpandedFormatMethodKind, has_first: bool, has_second: bool) -> Option<WgslError> {
    match kind {
        ToExpandedFormatMethodKind::InputVal => if !has_first {
            Some(WgslError::MissingVecValArgument)
        } else {
            None
        },
        ToExpandedFormatMethodKind::OutputPush => if !has_first {
            Some(WgslError::MissingPushArgument)
        } else {
            None
        },
        ToExpandedFormatMethodKind::OutputSet => if !(has_first && has_second) {
            Some(WgslError::MissingSetArguments)
        } else {
            None
        },
        _ => None,
    }
}

/// A path made of the single name `n`.
pub fn name_expr(n: String) -> (res: Expr)
    ensures
        is_name_expr(res, n@),
{
    let mut segments: Vec<PathSegment> = Vec::new();
    segments.push(PathSegment { ident: n, arguments: PathArguments::NoArgs });
    Expr::Path(RustPath { leading_colon: false, segments })
}

fn push_expansion(t: &CustomTypeName, value: Expr) -> (res: Expr)
    ensures
        expansion_shape(ToExpandedFormatMethodKind::OutputPush, *t, res),
        first_arg_slot(ToExpandedFormatMethodKind::OutputPush, res) == value,
{
    let mut add_args: Vec<Expr> = Vec::new();
    add_args.push(Expr::Reference { mutable: false, expr: Box::new(name_expr(t.counter())) });
    add_args.push(Expr::Lit(Lit::Int(owned("1u"))));
    let increment = Stmt::Local {
        pat: Pat::Ident(t.index()),
        init: Some(Expr::Call { func: Box::new(name_expr(owned("atomicAdd"))), args: add_args }),
    };
    let store = Stmt::Expr {
        expr: Expr::Assign {
            left: Box::new(Expr::Index {
                expr: Box::new(name_expr(t.output_array())),
                index: Box::new(name_expr(t.index())),
            }),
            right: Box::new(value),
        },
        semi: true,
    };
    let mut then_stmts: Vec<Stmt> = Vec::new();
    then_stmts.push(store);
    let guarded = Stmt::Expr {
        expr: Expr::If {
            cond: Box::new(Expr::Binary {
                left: Box::new(name_expr(t.index())),
                op: owned("<"),
                right: Box::new(name_expr(t.output_array_length())),
            }),
            then_branch: Block { stmts: then_stmts },
            else_branch: None,
        },
        semi: false,
    };
    let mut stmts: Vec<Stmt> = Vec::new();
    stmts.push(increment);
    stmts.push(guarded);
    Expr::Block(Block { stmts })
}

/// Builds the expansions of the helper calls.
pub struct ToExpandedFormat {}

impl ToExpandedFormat {
    /// The expansion of a helper call; an argument that the expansion needs and the
    /// call lacks is an error.
    pub fn run(method: WgslHelperMethod) -> (res: Result<Expr, WgslError>)
        requires
            method.method_expander_kind is Some,
        ensures
            ({
                let kind = method.method_expander_kind->Some_0;
                match res {
                    Ok(b) => {
                        &&& missing_arg_error(kind, method.arg1 is Some, method.arg2 is Some) is None
                        &&& expansion_shape(kind, method.t_def.name, b)
                        &&& takes_first_arg(kind) ==> method.arg1 == Some(first_arg_slot(kind, b))
                        &&& kind == ToExpandedFormatMethodKind::OutputSet ==> method.arg2 == Some(
                            second_arg_slot(b),
                        )
                    },
                    Err(x) => missing_arg_error(kind, method.arg1 is Some, method.arg2 is Some)
                        == Some(x),
                }
            }),
    {
        let t = &method.t_def.name;
        match method.method_expander_kind {
            Some(ToExpandedFormatMethodKind::InputLen) => Ok(name_expr(t.input_array_length())),
            Some(ToExpandedFormatMethodKind::InputVal) => match method.arg1 {
                None => Err(WgslError::MissingVecValArgument),
                Some(index) => Ok(
                    Expr::Index { expr: Box::new(name_expr(t.input_array())), index: Box::new(index) },
                ),
            },
            Some(ToExpandedFormatMethodKind::OutputPush) => match method.arg1 {
                None => Err(WgslError::MissingPushArgument),
                Some(value) => Ok(push_expansion(t, value)),
            },
            Some(ToExpandedFormatMethodKind::OutputLen) => Ok(name_expr(t.output_array_length())),
            Some(ToExpandedFormatMethodKind::OutputSet) => match (method.arg1, method.arg2) {
                (Some(index), Some(value)) => Ok(
                    Expr::Assign {
                        left: Box::new(
                            Expr::Index {
                                expr: Box::new(name_expr(t.output_array())),
                                index: Box::new(index),
                            },
                        ),
                        right: Box::new(value),
                    },
                ),
                _ => Err(WgslError::MissingSetArguments),
            },
            None => Err(WgslError::MissingVecValArgument),
        }
    }
}

proof fn lemma_exprs_rewrite_at(s: Seq<Expr>, t: Seq<Expr>, custom: Seq<CustomType>, i: int)
    requires
        exprs_rewrite_to(s, t, custom),
        0 <= i < s.len(),
    ensures
        rewrites_to(s[i], t[i], custom),
    decreases s.len(),
{
    if i < s.len() - 1 {
        lemma_exprs_rewrite_at(s.drop_last(), t.drop_last(), custom, i);
    }
}

/// A call whose function and arguments have been rewritten: its expansion where it
/// is a helper call (`target`), the call itself otherwise.
fn replace(
    target: Option<(WgslHelperCategory, WgslHelperMethodName, ToExpandedFormatMethodKind, usize)>,
    func: Expr,
    args: Vec<Expr>,
    custom: &Vec<CustomType>,
) -> (res: Result<Expr, WgslError>)
    requires
        target matches Some((c, m, k, j)) ==> j < custom@.len(),
    ensures
        match target {
            None => res == Ok::<Expr, WgslError>(Expr::Call { func: Box::new(func), args }),
            Some((c, m, kind, j)) => match res {
                Ok(b) => {
                    &&& missing_args_error(kind, args@.len()) is None
                    &&& expansion_shape(kind, custom@[j as int].name, b)
                    &&& takes_first_arg(kind) ==> args@.len() >= 1 && first_arg_slot(kind, b)
                        == args@[0]
                    &&& kind == ToExpandedFormatMethodKind::OutputSet ==> args@.len() >= 2
                        && second_arg_slot(b) == args@[1]
                },
                Err(x) => missing_args_error(kind, args@.len()) == Some(x),
            },
        },
{
    match target {
        None => Ok(Expr::Call { func: Box::new(func), args }),
        Some((c, m, kind, j)) => {
            let mut rest = args;
            let arg1 = if rest.len() >= 1 {
                Some(rest.remove(0))
            } else {
                None
            };
            let arg2 = if rest.len() >= 1 {
                Some(rest.remove(0))
            } else {
                None
            };
            let method = WgslHelperMethod {
                category: c,
                method: m,
                t_def: &custom[j],
                arg1,
                arg2,
                method_expander_kind: Some(kind),
            };
            ToExpandedFormat::run(method)
        },
    }
}

/// Rewrites every helper call in `e` (see `rewrites_to`).
pub fn rewrite_expr(e: Expr, custom: &Vec<CustomType>) -> (res: Result<Expr, WgslError>)
    ensures
        rewrite_outcome(e, res, custom@),
    decreases e,
{
    match e {
        Expr::Array(v) => {
            let w = rewrite_exprs(v, custom)?;
            Ok(Expr::Array(w))
        },
        Expr::Assign { left, right } => {
            let l = rewrite_expr(*left, custom)?;
            let r = rewrite_expr(*right, custom)?;
            Ok(Expr::Assign { left: Box::new(l), right: Box::new(r) })
        },
        Expr::Binary { left, op, right } => {
            let l = rewrite_expr(*left, custom)?;
            let r = rewrite_expr(*right, custom)?;
            Ok(Expr::Binary { left: Box::new(l), op, right: Box::new(r) })
        },
        Expr::Block(blk) => {
            let stmts = rewrite_stmts(blk.stmts, custom)?;
            Ok(Expr::Block(Block { stmts }))
        },
        Expr::Break(v) => match v {
            None => Ok(Expr::Break(None)),
            Some(x) => {
                let y = rewrite_expr(*x, custom)?;
                Ok(Expr::Break(Some(Box::new(y))))
            },
        },
        Expr::Call { func, args } => {
            let target = helper_target_exec(&*func, custom);
            let ghost args0 = args@;
            let f = rewrite_expr(*func, custom)?;
            let a = rewrite_exprs(args, custom)?;
            let ghost a_view = a@;
            let r = replace(target, f, a, custom);
            proof {
                match target {
                    Some((c, m, kind, j)) => {
                        if r is Ok {
                            if takes_first_arg(kind) {
                                lemma_exprs_rewrite_at(args0, a_view, custom@, 0);
                            }
                            if kind == ToExpandedFormatMethodKind::OutputSet {
                                lemma_exprs_rewrite_at(args0, a_view, custom@, 1);
                            }
                        }
                    },
                    None => {},
                }
            }
            r
        },
        Expr::Field { base, member } => {
            let b = rewrite_expr(*base, custom)?;
            Ok(Expr::Field { base: Box::new(b), member })
        },
        Expr::ForLoop { pat, expr, body } => {
            let x = rewrite_expr(*expr, custom)?;
            let stmts = rewrite_stmts(body.stmts, custom)?;
            Ok(Expr::ForLoop { pat, expr: Box::new(x), body: Block { stmts } })
        },
        Expr::Range { start, end, closed } => {
            let s2 = match start {
                None => None,
                Some(x) => Some(Box::new(rewrite_expr(*x, custom)?)),
            };
            let e2 = match end {
                None => None,
                Some(x) => Some(Box::new(rewrite_expr(*x, custom)?)),
            };
            Ok(Expr::Range { start: s2, end: e2, closed })
        },
        Expr::Group(x) => {
            let y = rewrite_expr(*x, custom)?;
            Ok(Expr::Group(Box::new(y)))
        },
        Expr::If { cond, then_branch, else_branch } => {
            let c = rewrite_expr(*cond, custom)?;
            let t = rewrite_stmts(then_branch.stmts, custom)?;
            let el = match else_branch {
                None => None,
                Some(x) => Some(Box::new(rewrite_expr(*x, custom)?)),
            };
            Ok(Expr::If { cond: Box::new(c), then_branch: Block { stmts: t }, else_branch: el })
        },
        Expr::Index { expr, index } => {
            let x = rewrite_expr(*expr, custom)?;
            let i = rewrite_expr(*index, custom)?;
            Ok(Expr::Index { expr: Box::new(x), index: Box::new(i) })
        },
        Expr::Loop(blk) => {
            let stmts = rewrite_stmts(blk.stmts, custom)?;
            Ok(Expr::Loop(Block { stmts }))
        },
        Expr::Paren(x) => {
            let y = rewrite_expr(*x, custom)?;
            Ok(Expr::Paren(Box::new(y)))
        },
        Expr::Reference { mutable, expr } => {
            let x = rewrite_expr(*expr, custom)?;
            Ok(Expr::Reference { mutable, expr: Box::new(x) })
        },
        Expr::Return(v) => match v {
            None => Ok(Expr::Return(None)),
            Some(x) => {
                let y = rewrite_expr(*x, custom)?;
                Ok(Expr::Return(Some(Box::new(y))))
            },
        },
        Expr::Struct { path, fields } => {
            let f = rewrite_field_values(fields, custom)?;
            Ok(Expr::Struct { path, fields: f })
        },
        Expr::Unary { op, expr } => {
            let x = rewrite_expr(*expr, custom)?;
            Ok(Expr::Unary { op, expr: Box::new(x) })
        },
        Expr::While { cond, body } => {
            let c = rewrite_expr(*cond, custom)?;
            let stmts = rewrite_stmts(body.stmts, custom)?;
            Ok(Expr::While { cond: Box::new(c), body: Block { stmts } })
        },
        Expr::Lit(l) => Ok(Expr::Lit(l)),
        Expr::Continue => Ok(Expr::Continue),
        Expr::Path(p) => Ok(Expr::Path(p)),
        Expr::Verbatim(t) => Ok(Expr::Verbatim(t)),
        Expr::Unsupported(k) => Ok(Expr::Unsupported(k)),
    }
}

/// Rewrites each expression of `v`, in order.
pub fn rewrite_exprs(v: Vec<Expr>, custom: &Vec<CustomType>) -> (res: Result<Vec<Expr>, WgslError>)
    ensures
        exprs_rewrite_outcome(v@, res, custom@),
    decreases v@,
{
    let ghost v0 = v@;
    let mut v = v;
    match v.pop() {
        None => {
            Ok(v)
        },
        Some(x) => {
            proof {
                assert(v@ =~= v0.drop_last());
            }
            let mut w = rewrite_exprs(v, custom)?;
            let y = rewrite_expr(x, custom)?;
            let ghost w0 = w@;
            w.push(y);
            proof {
                assert(w@.drop_last() =~= w0);
            }
            Ok(w)
        },
    }
}

/// Rewrites the value of each field of a struct literal, in order.
pub fn rewrite_field_values(v: Vec<FieldValue>, custom: &Vec<CustomType>) -> (res: Result<Vec<FieldValue>, WgslError>)
    ensures
        field_values_rewrite_outcome(v@, res, custom@),
    decreases v@,
{
    let ghost v0 = v@;
    let mut v = v;
    match v.pop() {
        None => {
            Ok(v)
        },
        Some(fv) => {
            proof {
                assert(v@ =~= v0.drop_last());
            }
            let mut w = rewrite_field_values(v, custom)?;
            let FieldValue { member, expr } = fv;
            let y = rewrite_expr(expr, custom)?;
            let ghost w0 = w@;
            w.push(FieldValue { member, expr: y });
            proof {
                assert(w@.drop_last() =~= w0);
            }
            Ok(w)
        },
    }
}

/// Rewrites the expressions of a statement.
pub fn rewrite_stmt(s: Stmt, custom: &Vec<CustomType>) -> (res: Result<Stmt, WgslError>)
    ensures
        stmt_rewrite_outcome(s, res, custom@),
    decreases s,
{
    match s {
        Stmt::Local { pat, init } => match init {
            None => Ok(Stmt::Local { pat, init: None }),
            Some(x) => {
                let y = rewrite_expr(x, custom)?;
                Ok(Stmt::Local { pat, init: Some(y) })
            },
        },
        Stmt::Expr { expr, semi } => {
            let y = rewrite_expr(expr, custom)?;
            Ok(Stmt::Expr { expr: y, semi })
        },
        Stmt::Item => Ok(Stmt::Item),
        Stmt::Macro => Ok(Stmt::Macro),
    }
}

/// Rewrites each statement of `v`, in order.
pub fn rewrite_stmts(v: Vec<Stmt>, custom: &Vec<CustomType>) -> (res: Result<Vec<Stmt>, WgslError>)
    ensures
        stmts_rewrite_outcome(v@, res, custom@),
    decreases v@,
{
    let ghost v0 = v@;
    let mut v = v;
    match v.pop() {
        None => {
            Ok(v)
        },
        Some(x) => {
            proof {
                assert(v@ =~= v0.drop_last());
            }
            let mut w = rewrite_stmts(v, custom)?;
            let y = rewrite_stmt(x, custom)?;
            let ghost w0 = w@;
            w.push(y);
            proof {
                assert(w@.drop_last() =~= w0);
            }
            Ok(w)
        },
    }
}

/// What rewriting does to an item: the body of a function and the value of a
/// constant are rewritten; every other item stays as it is.
pub open spec fn item_rewrites_to(a: Item, b: Item, custom: Seq<CustomType>) -> bool {
    match a {
        Item::Fn(f) => match b {
            Item::Fn(g) => {
                &&& g.name == f.name
                &&& g.inputs == f.inputs
                &&& g.output == f.output
                &&& g.tokens == f.tokens
                &&& stmts_rewrite_to(f.block.stmts@, g.block.stmts@, custom)
            },
            _ => false,
        },
        Item::Const(c) => match b {
            Item::Const(d) => {
                &&& d.name == c.name
                &&& d.ty == c.ty
                &&& d.tokens == c.tokens
                &&& rewrites_to(c.expr, d.expr, custom)
            },
            _ => false,
        },
        _ => b == a,
    }
}

pub open spec fn item_rewrite_error(a: Item, custom: Seq<CustomType>) -> Option<WgslError> {
    match a {
        Item::Fn(f) => stmts_rewrite_error(f.block.stmts@, custom),
        Item::Const(c) => rewrite_error(c.expr, custom),
        _ => None,
    }
}

pub open spec fn items_rewrite_to(s: Seq<Item>, t: Seq<Item>, custom: Seq<CustomType>) -> bool
    decreases s.len(),
{
    &&& s.len() == t.len()
    &&& s.len() > 0 ==> items_rewrite_to(s.drop_last(), t.drop_last(), custom) && item_rewrites_to(
        s.last(),
        t.last(),
        custom,
    )
}

pub open spec fn items_rewrite_error(s: Seq<Item>, custom: Seq<CustomType>) -> Option<WgslError>
    decreases s.len(),
{
    if s.len() == 0 {
        None
    } else {
        first_error(items_rewrite_error(s.drop_last(), custom), item_rewrite_error(s.last(), custom))
    }
}

fn rewrite_item(item: Item, custom: &Vec<CustomType>) -> (res: Result<Item, WgslError>)
    ensures
        match res {
            Ok(b) => item_rewrite_error(item, custom@) is None && item_rewrites_to(item, b, custom@),
            Err(x) => item_rewrite_error(item, custom@) == Some(x),
        },
{
    match item {
        Item::Fn(f) => {
            let ItemFn { name, inputs, output, block, tokens } = f;
            let stmts = rewrite_stmts(block.stmts, custom)?;
            Ok(Item::Fn(ItemFn { name, inputs, output, block: Block { stmts }, tokens }))
        },
        Item::Const(c) => {
            let ItemConst { name, ty, expr, tokens } = c;
            let e = rewrite_expr(expr, custom)?;
            Ok(Item::Const(ItemConst { name, ty, expr: e, tokens }))
        },
        other => Ok(other),
    }
}

fn rewrite_items(v: Vec<Item>, custom: &Vec<CustomType>) -> (res: Result<Vec<Item>, WgslError>)
    ensures
        match res {
            Ok(b) => items_rewrite_error(v@, custom@) is None && items_rewrite_to(v@, b@, custom@),
            Err(x) => items_rewrite_error(v@, custom@) == Some(x),
        },
    decreases v@.len(),
{
    let ghost v0 = v@;
    let mut v = v;
    match v.pop() {
        None => Ok(v),
        Some(x) => {
            proof {
                assert(v@ =~= v0.drop_last());
            }
            let mut w = rewrite_items(v, custom)?;
            let y = rewrite_item(x, custom)?;
            let ghost w0 = w@;
            w.push(y);
            proof {
                assert(w@.drop_last() =~= w0);
            }
            Ok(w)
        },
    }
}

/// What rewriting does to a module: its items are rewritten, its name and
/// visibility kept.
pub open spec fn module_rewrite_outcome(
    module: ItemMod,
    res: Result<ItemMod, WgslError>,
    custom: Seq<CustomType>,
) -> bool {
    match module.content {
        None => res == Ok::<ItemMod, WgslError>(module),
        Some(items) => match res {
            Ok(m) => {
                &&& m.name == module.name
                &&& m.visibility == module.visibility
                &&& items_rewrite_error(items@, custom) is None
                &&& m.content matches Some(items2) && items_rewrite_to(items@, items2@, custom)
            },
            Err(x) => items_rewrite_error(items@, custom) == Some(x),
        },
    }
}

/// Replaces every helper call on a user type of `custom_types` by its expansion
/// (see `rewrites_to`), throughout the module.
pub fn rewrite_module(module: ItemMod, custom_types: &Vec<CustomType>) -> (res: Result<ItemMod, WgslError>)
    ensures
        module_rewrite_outcome(module, res, custom_types@),
{
    let ItemMod { name, visibility, content } = module;
    match content {
        None => Ok(ItemMod { name, visibility, content: None }),
        Some(items) => {
            let rewritten = rewrite_items(items, custom_types)?;
            Ok(ItemMod { name, visibility, content: Some(rewritten) })
        },
    }
}

/// Replaces the helper calls on the module's own types by their expansions. The
/// types are those of `allowed`, which `get_custom_types` lists.
pub fn transform_wgsl_helper_methods(module: ItemMod, allowed: &AllowedRustTypes) -> (res: Result<ItemMod, WgslError>)
    ensures
        module_rewrite_outcome(module, res, allowed.custom_types@),
{
    rewrite_module(module, &allowed.custom_types)
}

/// User types with these names and no attribute.
pub open spec fn types_named(types: Seq<CustomType>, names: Seq<String>) -> bool {
    &&& types.len() == names.len()
    &&& forall|i: int| 0 <= i < names.len() ==> #[trigger] types[i].name.is_named(names[i]@)
        && types[i].kind == CustomTypeKind::GpuOnlyHelperType
}

/// Replaces the helper calls on the types named in `custom_types`.
pub fn convert_special_helper_functions(module: ItemMod, custom_types: Vec<String>) -> (res: Result<ItemMod, WgslError>)
    ensures
        exists|types: Seq<CustomType>|
            types_named(types, custom_types@) && #[trigger] module_rewrite_outcome(module, res, types),
{
    let mut types: Vec<CustomType> = Vec::new();
    let n = custom_types.len();
    let mut i: usize = 0;
    while i < n
        invariant
            n == custom_types@.len(),
            i <= n,
            types_named(types@, custom_types@.subrange(0, i as int)),
        decreases n - i,
    {
        let ghost old_types = types@;
        let t = CustomType::new(&custom_types[i], CustomTypeKind::GpuOnlyHelperType, String::new());
        let ghost tg = t;
        types.push(t);
        proof {
            assert(types@ == old_types.push(tg));
            assert forall|k: int| 0 <= k < i + 1 implies #[trigger] types@[k].name.is_named(
                custom_types@.subrange(0, i + 1)[k]@,
            ) && types@[k].kind == CustomTypeKind::GpuOnlyHelperType by {
                if k < i {
                    assert(types@[k] == old_types[k]);
                    assert(custom_types@.subrange(0, i + 1)[k] == custom_types@.subrange(0, i as int)[k]);
                    assert(old_types[k].name.is_named(custom_types@.subrange(0, i as int)[k]@));
                } else {
                    assert(types@[k] == tg);
                    assert(custom_types@.subrange(0, i + 1)[k] == custom_types@[i as int]);
                }
            }
        }
        i = i + 1;
    }
    assert(custom_types@.subrange(0, n as int) =~= custom_types@);
    let res = rewrite_module(module, &types);
    assert(types_named(types@, custom_types@) && module_rewrite_outcome(module, res, types@));
    res
}

} // verus!
