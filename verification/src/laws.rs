//! Properties that relate several operations of the library.
use vstd::prelude::*;
use crate::custom_types::{declared_types, module_types, lists_module_types, type_names, CustomType, CustomTypeKind};
use crate::custom_type_name::ascii_lowercase;
use crate::syntax::{Lit, PathArguments, RustType};
use crate::wgsl_exprs::lit_wgsl;
use crate::wgsl_types::{helper_type_wgsl, scalar_suffix_wgsl, type_wgsl};
use crate::tokenized_initializer_for_user_portion::{initializer_module_code, joined_codes};
use crate::custom_type_name::{counter_name, lowercase_of};
use crate::per_component_expansion::{escape_char, escaped, string_literal, unescape};
use crate::module_parser::{
    inputs_of, item_kind, item_name, output_model, outputs_models, outputs_of, portion_of, types_of,
};
use crate::syntax::{Expr, Item, ItemMod, Stmt};
use crate::transform_wgsl_helper_methods::{
    exprs_rewrite_error, exprs_rewrite_to, field_values_rewrite_error, field_values_rewrite_to,
    first_arg_slot, helper_target, is_name_expr, item_rewrite_error, item_rewrites_to,
    items_rewrite_error, items_rewrite_to, module_rewrite_outcome, rewrite_error, rewrites_to,
    second_arg_slot, stmt_rewrite_error, stmt_rewrites_to, stmts_rewrite_error, stmts_rewrite_to,
    ToExpandedFormatMethodKind,
};
use crate::wgsl_components::{WgslConstAssignment, WgslOutputArray, WgslShaderModuleUserPortion};
use crate::wgsl_shader_module::{lines_of, module_body_wgsl, ModulePart};
use crate::wgsl_shader_module_lib_portion::{
    const_model, input_bindings, is_library_portion_of, module_bindings, output_bindings,
    uniform_bindings, WgslShaderModuleLibraryPortion,
};
use crate::wgsl_wgpu_binding::{
    access_mode_named, access_mode_text, buffer_type_named, buffer_type_text, WgpuBufferAccessMode,
    WgpuBufferType,
};

verus! {

/// A buffer type's keyword reads back as that buffer type:
/// `WgpuBufferType::from_lowercase(&t.to_string())` is `Ok(t)`.
pub proof fn law_buffer_type_round_trip(t: WgpuBufferType)
    ensures
        buffer_type_named(buffer_type_text(t)) == Some(t),
{
    match t {
        WgpuBufferType::Storage => {},
        WgpuBufferType::Uniform => {
            reveal_strlit("uniform");
            reveal_strlit("storage");
            assert("uniform"@[0] != "storage"@[0]);
        },
    }
}

/// An access mode's keyword reads back as that access mode:
/// `WgpuBufferAccessMode::from_lowercase(&m.to_string())` is `Ok(m)`.
pub proof fn law_access_mode_round_trip(m: WgpuBufferAccessMode)
    ensures
        access_mode_named(access_mode_text(m)) == Some(m),
{
    match m {
        WgpuBufferAccessMode::Read => {},
        WgpuBufferAccessMode::ReadWrite => {
            reveal_strlit("read_write");
            reveal_strlit("read");
            assert("read_write"@.len() != "read"@.len());
        },
    }
}

proof fn lemma_lines_of_pointwise<T: ModulePart>(s1: Seq<T>, s2: Seq<T>)
    requires
        s1.len() == s2.len(),
        forall|i: int| 0 <= i < s1.len() ==> #[trigger] s1[i].part_wgsl() == s2[i].part_wgsl(),
    ensures
        lines_of(s1) == lines_of(s2),
    decreases s1.len(),
{
    if s1.len() > 0 {
        assert forall|i: int| 0 <= i < s1.drop_last().len() implies #[trigger] s1.drop_last()[i].part_wgsl()
            == s2.drop_last()[i].part_wgsl() by {
            assert(s1.drop_last()[i] == s1[i]);
            assert(s2.drop_last()[i] == s2[i]);
        }
        lemma_lines_of_pointwise(s1.drop_last(), s2.drop_last());
        assert(s1.last().part_wgsl() == s2.last().part_wgsl());
    }
}

/// The library portion of a user portion is fixed, as far as the WGSL shows: any two
/// library portions that `WgslShaderModuleLibraryPortion::from` can return for it
/// give the same body. So `compose_wgsl(u).wgsl_code` and
/// `WgslShaderModule::new(u).wgsl_code(dim)` hold the same body and differ only in
/// the workgroup line.
pub proof fn law_library_portion_determines_body(
    u: WgslShaderModuleUserPortion,
    lib1: WgslShaderModuleLibraryPortion,
    lib2: WgslShaderModuleLibraryPortion,
)
    requires
        is_library_portion_of(lib1, u),
        is_library_portion_of(lib2, u),
    ensures
        module_body_wgsl(u, lib1) == module_body_wgsl(u, lib2),
{
    let c1 = lib1.pipeline_consts@;
    let c2 = lib2.pipeline_consts@;
    assert(c1.len() == c2.len()) by {
        assert(c1.map_values(|c: WgslConstAssignment| const_model(c)).len() == c1.len());
        assert(c2.map_values(|c: WgslConstAssignment| const_model(c)).len() == c2.len());
    }
    assert forall|i: int| 0 <= i < c1.len() implies #[trigger] c1[i].part_wgsl() == c2[i].part_wgsl() by {
        assert(c1.map_values(|c: WgslConstAssignment| const_model(c))[i] == const_model(c1[i]));
        assert(c2.map_values(|c: WgslConstAssignment| const_model(c))[i] == const_model(c2[i]));
    }
    lemma_lines_of_pointwise(c1, c2);
    let b1 = lib1.bindings@;
    let b2 = lib2.bindings@;
    let models = module_bindings(u);
    assert forall|i: int| 0 <= i < b1.len() implies #[trigger] b1[i].part_wgsl() == b2[i].part_wgsl() by {
        assert(crate::wgsl_shader_module_lib_portion::binding_model(b1[i]) == models[i]);
        assert(crate::wgsl_shader_module_lib_portion::binding_model(b2[i]) == models[i]);
    }
    lemma_lines_of_pointwise(b1, b2);
    assert(lib1.uniforms@ =~= lib2.uniforms@);
    assert(lib1.helper_functions@ =~= lib2.helper_functions@);
}

/// How many output arrays have a counter.
pub open spec fn counted_outputs(outs: Seq<WgslOutputArray>) -> nat
    decreases outs.len(),
{
    if outs.len() == 0 {
        0
    } else {
        counted_outputs(outs.drop_last()) + if outs.last().atomic_counter_name is Some {
            1nat
        } else {
            0nat
        }
    }
}

proof fn lemma_output_bindings_count(outs: Seq<WgslOutputArray>)
    ensures
        output_bindings(outs).len() == outs.len() + counted_outputs(outs),
    decreases outs.len(),
{
    if outs.len() > 0 {
        lemma_output_bindings_count(outs.drop_last());
    }
}

/// A module has one binding per uniform, per input array and per output array, and
/// one more per output array with a counter.
pub proof fn law_binding_count(u: WgslShaderModuleUserPortion)
    ensures
        module_bindings(u).len() == u.uniforms@.len() + u.input_arrays@.len() + u.output_arrays@.len()
            + counted_outputs(u.output_arrays@),
{
    lemma_output_bindings_count(u.output_arrays@);
    assert(uniform_bindings(u.uniforms@).len() == u.uniforms@.len());
    assert(input_bindings(u.input_arrays@).len() == u.input_arrays@.len());
}

/// Every struct and alias of a module lands in exactly one part of the parsed module:
/// the GPU-only types, the uniforms, the input arrays or the output arrays.
pub proof fn law_every_type_classified(items: Seq<Item>, names: Seq<Seq<char>>)
    ensures
        types_of(items, names, CustomTypeKind::GpuOnlyHelperType).len() + types_of(
            items,
            names,
            CustomTypeKind::Uniform,
        ).len() + inputs_of(items, names).len() + outputs_of(items, names).len() == declared_types(
            items,
        ).len(),
    decreases items.len(),
{
    if items.len() > 0 {
        law_every_type_classified(items.drop_last(), names);
    }
}

proof fn lemma_rewrite_keeps_declared_types(s: Seq<Item>, t: Seq<Item>, custom: Seq<CustomType>)
    requires
        items_rewrite_to(s, t, custom),
    ensures
        declared_types(t) == declared_types(s),
    decreases s.len(),
{
    if s.len() > 0 {
        lemma_rewrite_keeps_declared_types(s.drop_last(), t.drop_last(), custom);
        assert(item_rewrites_to(s.last(), t.last(), custom));
        match s.last() {
            Item::Fn(_) => {},
            Item::Const(_) => {},
            _ => {
                assert(t.last() == s.last());
            },
        }
    }
}

/// Rewriting the helper calls leaves the module's own types as they are, so the
/// types listed before the rewriting are those of the rewritten module.
pub proof fn law_rewrite_keeps_types(module: ItemMod, rewritten: ItemMod, custom: Seq<CustomType>)
    requires
        module_rewrite_outcome(module, Ok(rewritten), custom),
    ensures
        module_types(rewritten) == module_types(module),
{
    match module.content {
        None => {},
        Some(items) => {
            let items2 = rewritten.content->Some_0;
            lemma_rewrite_keeps_declared_types(items@, items2@, custom);
        },
    }
}

proof fn lemma_name_fixed(e: Expr, n: Seq<char>, custom: Seq<CustomType>)
    requires
        is_name_expr(e, n),
    ensures
        rewrites_to(e, e, custom),
        rewrite_error(e, custom) is None,
        helper_target(e, custom) is None,
{
}

/// Rewriting never yields a helper call: where `a` is no helper call, neither is
/// what it is rewritten to.
proof fn lemma_rewrite_not_helper(a: Expr, b: Expr, custom: Seq<CustomType>)
    requires
        rewrites_to(a, b, custom),
    ensures
        helper_target(b, custom) is None || b == a,
{
    match a {
        Expr::Call { func, args } => match helper_target(*func, custom) {
            Some((kind, j)) => {
                if kind == ToExpandedFormatMethodKind::InputLen || kind
                    == ToExpandedFormatMethodKind::OutputLen {
                    assert(b is Path);
                    let n = b->Path_0.segments@[0].ident@;
                    lemma_name_fixed(b, n, custom);
                }
            },
            None => {},
        },
        _ => {},
    }
}

proof fn lemma_exprs_each_fixed(s: Seq<Expr>, custom: Seq<CustomType>)
    requires
        forall|i: int|
            0 <= i < s.len() ==> #[trigger] rewrites_to(s[i], s[i], custom) && rewrite_error(
                s[i],
                custom,
            ) is None,
    ensures
        exprs_rewrite_to(s, s, custom),
        exprs_rewrite_error(s, custom) is None,
    decreases s.len(),
{
    if s.len() > 0 {
        assert forall|i: int| 0 <= i < s.drop_last().len() implies #[trigger] rewrites_to(
            s.drop_last()[i],
            s.drop_last()[i],
            custom,
        ) && rewrite_error(s.drop_last()[i], custom) is None by {
            assert(s.drop_last()[i] == s[i]);
            assert(rewrites_to(s[i], s[i], custom));
        }
        lemma_exprs_each_fixed(s.drop_last(), custom);
        assert(rewrites_to(s[s.len() - 1], s[s.len() - 1], custom));
    }
}

proof fn lemma_stmts_each_fixed(s: Seq<Stmt>, custom: Seq<CustomType>)
    requires
        forall|i: int|
            0 <= i < s.len() ==> #[trigger] stmt_rewrites_to(s[i], s[i], custom) && stmt_rewrite_error(
                s[i],
                custom,
            ) is None,
    ensures
        stmts_rewrite_to(s, s, custom),
        stmts_rewrite_error(s, custom) is None,
    decreases s.len(),
{
    if s.len() > 0 {
        assert forall|i: int| 0 <= i < s.drop_last().len() implies #[trigger] stmt_rewrites_to(
            s.drop_last()[i],
            s.drop_last()[i],
            custom,
        ) && stmt_rewrite_error(s.drop_last()[i], custom) is None by {
            assert(s.drop_last()[i] == s[i]);
            assert(stmt_rewrites_to(s[i], s[i], custom));
        }
        lemma_stmts_each_fixed(s.drop_last(), custom);
        assert(stmt_rewrites_to(s[s.len() - 1], s[s.len() - 1], custom));
    }
}

/// What rewriting gives is left as it is by a second rewriting.
proof fn lemma_rewrite_fixed(a: Expr, b: Expr, custom: Seq<CustomType>)
    requires
        rewrites_to(a, b, custom),
    ensures
        rewrites_to(b, b, custom),
        rewrite_error(b, custom) is None,
    decreases a,
{
    match a {
        Expr::Array(v) => {
            let w = b->Array_0;
            lemma_exprs_fixed(v@, w@, custom);
        },
        Expr::Assign { left, right } => {
            lemma_rewrite_fixed(*left, *b->Assign_left, custom);
            lemma_rewrite_fixed(*right, *b->Assign_right, custom);
        },
        Expr::Binary { left, op, right } => {
            lemma_rewrite_fixed(*left, *b->Binary_left, custom);
            lemma_rewrite_fixed(*right, *b->Binary_right, custom);
        },
        Expr::Block(blk) => {
            lemma_stmts_fixed(blk.stmts@, b->Block_0.stmts@, custom);
        },
        Expr::Break(v) => match v {
            Some(x) => {
                lemma_rewrite_fixed(*x, *b->Break_0->Some_0, custom);
            },
            None => {},
        },
        Expr::Call { func, args } => match helper_target(*func, custom) {
            None => {
                let f2 = *b->Call_func;
                let a2 = b->Call_args;
                lemma_rewrite_fixed(*func, f2, custom);
                lemma_exprs_fixed(args@, a2@, custom);
                lemma_rewrite_not_helper(*func, f2, custom);
            },
            Some((kind, j)) => {
                let t = custom[j].name;
                match kind {
                    ToExpandedFormatMethodKind::InputLen => {
                        lemma_name_fixed(b, crate::custom_type_name::input_array_length_name(t.upper@), custom);
                    },
                    ToExpandedFormatMethodKind::OutputLen => {
                        lemma_name_fixed(b, crate::custom_type_name::output_array_length_name(t.upper@), custom);
                    },
                    ToExpandedFormatMethodKind::InputVal => {
                        lemma_rewrite_fixed(args@[0], first_arg_slot(kind, b), custom);
                        lemma_name_fixed(*b->Index_expr, crate::custom_type_name::input_array_name(t.lower@), custom);
                    },
                    ToExpandedFormatMethodKind::OutputSet => {
                        lemma_rewrite_fixed(args@[0], first_arg_slot(kind, b), custom);
                        lemma_rewrite_fixed(args@[1], second_arg_slot(b), custom);
                        let left = *b->Assign_left;
                        lemma_name_fixed(*left->Index_expr, crate::custom_type_name::output_array_name(t.lower@), custom);
                        assert(rewrites_to(left, left, custom));
                    },
                    ToExpandedFormatMethodKind::OutputPush => {
                        lemma_rewrite_fixed(args@[0], first_arg_slot(kind, b), custom);
                        lemma_push_expansion_fixed(b, t, custom);
                    },
                }
            },
        },
        Expr::Field { base, member } => {
            lemma_rewrite_fixed(*base, *b->Field_base, custom);
        },
        Expr::ForLoop { pat, expr, body } => {
            lemma_rewrite_fixed(*expr, *b->ForLoop_expr, custom);
            lemma_stmts_fixed(body.stmts@, b->ForLoop_body.stmts@, custom);
        },
        Expr::Range { start, end, closed } => {
            match start {
                Some(x) => {
                    lemma_rewrite_fixed(*x, *b->Range_start->Some_0, custom);
                },
                None => {},
            }
            match end {
                Some(x) => {
                    lemma_rewrite_fixed(*x, *b->Range_end->Some_0, custom);
                },
                None => {},
            }
        },
        Expr::Group(x) => {
            lemma_rewrite_fixed(*x, *b->Group_0, custom);
        },
        Expr::If { cond, then_branch, else_branch } => {
            lemma_rewrite_fixed(*cond, *b->If_cond, custom);
            lemma_stmts_fixed(then_branch.stmts@, b->If_then_branch.stmts@, custom);
            match else_branch {
                Some(x) => {
                    lemma_rewrite_fixed(*x, *b->If_else_branch->Some_0, custom);
                },
                None => {},
            }
        },
        Expr::Index { expr, index } => {
            lemma_rewrite_fixed(*expr, *b->Index_expr, custom);
            lemma_rewrite_fixed(*index, *b->Index_index, custom);
        },
        Expr::Loop(blk) => {
            lemma_stmts_fixed(blk.stmts@, b->Loop_0.stmts@, custom);
        },
        Expr::Paren(x) => {
            lemma_rewrite_fixed(*x, *b->Paren_0, custom);
        },
        Expr::Reference { mutable, expr } => {
            lemma_rewrite_fixed(*expr, *b->Reference_expr, custom);
        },
        Expr::Return(v) => match v {
            Some(x) => {
                lemma_rewrite_fixed(*x, *b->Return_0->Some_0, custom);
            },
            None => {},
        },
        Expr::Struct { path, fields } => {
            lemma_field_values_fixed(fields@, b->Struct_fields@, custom);
        },
        Expr::Unary { op, expr } => {
            lemma_rewrite_fixed(*expr, *b->Unary_expr, custom);
        },
        Expr::While { cond, body } => {
            lemma_rewrite_fixed(*cond, *b->While_cond, custom);
            lemma_stmts_fixed(body.stmts@, b->While_body.stmts@, custom);
        },
        _ => {},
    }
}

/// The block that a push expands to is left as it is by a second rewriting, given
/// that the value it stores is.
proof fn lemma_push_expansion_fixed(b: Expr, t: crate::custom_type_name::CustomTypeName, custom: Seq<CustomType>)
    requires
        crate::transform_wgsl_helper_methods::expansion_shape(ToExpandedFormatMethodKind::OutputPush, t, b),
        rewrites_to(first_arg_slot(ToExpandedFormatMethodKind::OutputPush, b), first_arg_slot(ToExpandedFormatMethodKind::OutputPush, b), custom),
        rewrite_error(first_arg_slot(ToExpandedFormatMethodKind::OutputPush, b), custom) is None,
    ensures
        rewrites_to(b, b, custom),
        rewrite_error(b, custom) is None,
{
    let blk = b->Block_0;
    let s0 = blk.stmts@[0];
    let s1 = blk.stmts@[1];
    let c = s0->Local_init->Some_0;
    let cargs = c->Call_args;
    lemma_name_fixed(*c->Call_func, "atomicAdd"@, custom);
    let r = cargs@[0];
    lemma_name_fixed(*r->Reference_expr, crate::custom_type_name::counter_name(t.lower@), custom);
    assert(rewrites_to(r, r, custom));
    assert(rewrites_to(cargs@[1], cargs@[1], custom));
    lemma_exprs_each_fixed(cargs@, custom);
    assert(rewrites_to(c, c, custom));
    assert(stmt_rewrites_to(s0, s0, custom));
    let ife = s1->Expr_expr;
    let cond = *ife->If_cond;
    lemma_name_fixed(*cond->Binary_left, crate::custom_type_name::index_name(t.lower@), custom);
    lemma_name_fixed(*cond->Binary_right, crate::custom_type_name::output_array_length_name(t.upper@), custom);
    assert(rewrites_to(cond, cond, custom));
    let then_stmts = ife->If_then_branch.stmts@;
    let store = then_stmts[0];
    let asg = store->Expr_expr;
    let target = *asg->Assign_left;
    lemma_name_fixed(*target->Index_expr, crate::custom_type_name::output_array_name(t.lower@), custom);
    lemma_name_fixed(*target->Index_index, crate::custom_type_name::index_name(t.lower@), custom);
    assert(rewrites_to(target, target, custom));
    assert(*asg->Assign_right == first_arg_slot(ToExpandedFormatMethodKind::OutputPush, b));
    assert(rewrites_to(asg, asg, custom));
    assert(stmt_rewrites_to(store, store, custom));
    lemma_stmts_each_fixed(then_stmts, custom);
    assert(rewrites_to(ife, ife, custom));
    assert(stmt_rewrites_to(s1, s1, custom));
    lemma_stmts_each_fixed(blk.stmts@, custom);
}

proof fn lemma_exprs_fixed(s: Seq<Expr>, t: Seq<Expr>, custom: Seq<CustomType>)
    requires
        exprs_rewrite_to(s, t, custom),
    ensures
        exprs_rewrite_to(t, t, custom),
        exprs_rewrite_error(t, custom) is None,
    decreases s,
{
    if s.len() > 0 {
        lemma_exprs_fixed(s.drop_last(), t.drop_last(), custom);
        lemma_rewrite_fixed(s.last(), t.last(), custom);
    }
}

proof fn lemma_field_values_fixed(
    s: Seq<crate::syntax::FieldValue>,
    t: Seq<crate::syntax::FieldValue>,
    custom: Seq<CustomType>,
)
    requires
        field_values_rewrite_to(s, t, custom),
    ensures
        field_values_rewrite_to(t, t, custom),
        field_values_rewrite_error(t, custom) is None,
    decreases s,
{
    if s.len() > 0 {
        lemma_field_values_fixed(s.drop_last(), t.drop_last(), custom);
        lemma_rewrite_fixed(s.last().expr, t.last().expr, custom);
    }
}

proof fn lemma_stmt_fixed(a: Stmt, b: Stmt, custom: Seq<CustomType>)
    requires
        stmt_rewrites_to(a, b, custom),
    ensures
        stmt_rewrites_to(b, b, custom),
        stmt_rewrite_error(b, custom) is None,
    decreases a,
{
    match a {
        Stmt::Local { pat, init } => match init {
            Some(x) => {
                lemma_rewrite_fixed(x, b->Local_init->Some_0, custom);
            },
            None => {},
        },
        Stmt::Expr { expr, semi } => {
            lemma_rewrite_fixed(expr, b->Expr_expr, custom);
        },
        _ => {},
    }
}

proof fn lemma_stmts_fixed(s: Seq<Stmt>, t: Seq<Stmt>, custom: Seq<CustomType>)
    requires
        stmts_rewrite_to(s, t, custom),
    ensures
        stmts_rewrite_to(t, t, custom),
        stmts_rewrite_error(t, custom) is None,
    decreases s,
{
    if s.len() > 0 {
        lemma_stmts_fixed(s.drop_last(), t.drop_last(), custom);
        lemma_stmt_fixed(s.last(), t.last(), custom);
    }
}

proof fn lemma_items_fixed(s: Seq<Item>, t: Seq<Item>, custom: Seq<CustomType>)
    requires
        items_rewrite_to(s, t, custom),
    ensures
        items_rewrite_to(t, t, custom),
        items_rewrite_error(t, custom) is None,
    decreases s.len(),
{
    if s.len() > 0 {
        lemma_items_fixed(s.drop_last(), t.drop_last(), custom);
        assert(item_rewrites_to(s.last(), t.last(), custom));
        match s.last() {
            Item::Fn(f) => {
                lemma_stmts_fixed(f.block.stmts@, t.last()->Fn_0.block.stmts@, custom);
            },
            Item::Const(c) => {
                lemma_rewrite_fixed(c.expr, t.last()->Const_0.expr, custom);
            },
            _ => {},
        }
        assert(item_rewrites_to(t.last(), t.last(), custom));
        assert(item_rewrite_error(t.last(), custom) is None);
    }
}

/// Rewriting the helper calls is done in one pass: rewriting a rewritten module
/// succeeds and changes nothing.
pub proof fn law_rewriting_is_idempotent(module: ItemMod, rewritten: ItemMod, custom: Seq<CustomType>)
    requires
        module_rewrite_outcome(module, Ok(rewritten), custom),
    ensures
        module_rewrite_outcome(rewritten, Ok(rewritten), custom),
{
    match module.content {
        None => {},
        Some(items) => {
            let items2 = rewritten.content->Some_0;
            lemma_items_fixed(items@, items2@, custom);
        },
    }
}

proof fn lemma_outputs_of_has_counter(items: Seq<Item>, names: Seq<Seq<char>>, i: int)
    requires
        0 <= i < items.len(),
        item_kind(items[i]) == Some(CustomTypeKind::OutputVec),
    ensures
        exists|k: int|
            0 <= k < outputs_of(items, names).len() && #[trigger] outputs_of(items, names)[k].2 == Some(
                counter_name(lowercase_of(item_name(items[i]))),
            ),
    decreases items.len(),
{
    let last = items.len() - 1;
    if i < last {
        lemma_outputs_of_has_counter(items.drop_last(), names, i);
        assert(items.drop_last()[i] == items[i]);
        let p = outputs_of(items.drop_last(), names);
        let k = choose|k: int|
            0 <= k < p.len() && #[trigger] p[k].2 == Some(
                counter_name(lowercase_of(item_name(items.drop_last()[i]))),
            );
        assert(outputs_of(items, names)[k] == p[k]);
    } else {
        let p = outputs_of(items.drop_last(), names);
        assert(outputs_of(items, names)[p.len() as int].2 == Some(
            counter_name(lowercase_of(item_name(items[i]))),
        ));
    }
}

proof fn lemma_output_bindings_have_counter(outs: Seq<WgslOutputArray>, k: int)
    requires
        0 <= k < outs.len(),
        outs[k].atomic_counter_name is Some,
    ensures
        output_bindings(outs).contains(
            (
                WgpuBufferType::Storage,
                WgpuBufferAccessMode::ReadWrite,
                outs[k].atomic_counter_name->Some_0@,
                "atomic<u32>"@,
            ),
        ),
    decreases outs.len(),
{
    let m = (
        WgpuBufferType::Storage,
        WgpuBufferAccessMode::ReadWrite,
        outs[k].atomic_counter_name->Some_0@,
        "atomic<u32>"@,
    );
    let p = output_bindings(outs.drop_last());
    if k < outs.len() - 1 {
        lemma_output_bindings_have_counter(outs.drop_last(), k);
        assert(outs.drop_last()[k] == outs[k]);
        let x = choose|x: int| 0 <= x < p.len() && p[x] == m;
        assert(output_bindings(outs)[x] == m);
    } else {
        assert(output_bindings(outs)[p.len() + 1int] == m);
    }
}

/// The counter that a pushed value goes through is one the library binds: for a
/// type marked `#[wgsl_output_vec]` and named `n`, the bindings of the parsed module
/// hold the read-write storage counter `{lowercase n}_counter: atomic<u32>`, the
/// counter that `WgslOutput::push::<n>` increments after rewriting (a user type's
/// lower-case name is `lowercase_of` its name).
pub proof fn law_pushed_counter_is_bound(
    u: WgslShaderModuleUserPortion,
    items: Seq<Item>,
    names: Seq<Seq<char>>,
    i: int,
)
    requires
        portion_of(u, items, names),
        0 <= i < items.len(),
        item_kind(items[i]) == Some(CustomTypeKind::OutputVec),
    ensures
        module_bindings(u).contains(
            (
                WgpuBufferType::Storage,
                WgpuBufferAccessMode::ReadWrite,
                counter_name(lowercase_of(item_name(items[i]))),
                "atomic<u32>"@,
            ),
        ),
{
    lemma_outputs_of_has_counter(items, names, i);
    let o = outputs_of(items, names);
    let k = choose|k: int|
        0 <= k < o.len() && #[trigger] o[k].2 == Some(counter_name(lowercase_of(item_name(items[i]))));
    let outs = u.output_arrays@;
    assert(outputs_models(outs)[k] == output_model(outs[k]));
    assert(outs[k].atomic_counter_name is Some);
    lemma_output_bindings_have_counter(outs, k);
    let m = (
        WgpuBufferType::Storage,
        WgpuBufferAccessMode::ReadWrite,
        counter_name(lowercase_of(item_name(items[i]))),
        "atomic<u32>"@,
    );
    let ob = output_bindings(outs);
    let x = choose|x: int| 0 <= x < ob.len() && ob[x] == m;
    let pre = uniform_bindings(u.uniforms@) + input_bindings(u.input_arrays@);
    assert(module_bindings(u)[pre.len() as int + x] == m);
}

proof fn lemma_unescape_concat(a: Seq<char>, b: Seq<char>)
    requires
        unescape(a) is Some,
        unescape(b) is Some,
    ensures
        unescape(a + b) == Some(unescape(a)->Some_0 + unescape(b)->Some_0),
    decreases a.len(),
{
    let y = unescape(b)->Some_0;
    if a.len() == 0 {
        assert(a + b =~= b);
        assert(unescape(a)->Some_0 + y =~= y);
    } else if a[0] == '\\' {
        let rest = a.subrange(2, a.len() as int);
        lemma_unescape_concat(rest, b);
        assert((a + b).subrange(2, (a + b).len() as int) =~= rest + b);
        assert((a + b)[1] == a[1]);
        let c = crate::per_component_expansion::unescaped_char(a[1])->Some_0;
        assert(seq![c] + (unescape(rest)->Some_0 + y) =~= (seq![c] + unescape(rest)->Some_0) + y);
    } else {
        let rest = a.subrange(1, a.len() as int);
        lemma_unescape_concat(rest, b);
        assert((a + b).subrange(1, (a + b).len() as int) =~= rest + b);
        assert(seq![a[0]] + (unescape(rest)->Some_0 + y) =~= (seq![a[0]] + unescape(rest)->Some_0) + y);
    }
}

proof fn lemma_unescape_escape_char(c: char)
    ensures
        unescape(escape_char(c)) == Some(seq![c]),
{
    let t = escape_char(c);
    assert(unescape(Seq::<char>::empty()) == Some(Seq::<char>::empty()));
    if t.len() == 2 {
        assert(t.subrange(2, 2) =~= Seq::<char>::empty());
    } else {
        assert(t.subrange(1, 1) =~= Seq::<char>::empty());
    }
    assert(seq![c] + Seq::<char>::empty() =~= seq![c]);
}

proof fn lemma_unescape_escaped(s: Seq<char>)
    ensures
        unescape(escaped(s)) == Some(s),
    decreases s.len(),
{
    if s.len() == 0 {
        assert(unescape(Seq::<char>::empty()) == Some(Seq::<char>::empty()));
    } else {
        lemma_unescape_escaped(s.drop_last());
        lemma_unescape_escape_char(s.last());
        lemma_unescape_concat(escaped(s.drop_last()), escape_char(s.last()));
        assert(s.drop_last() + seq![s.last()] =~= s);
    }
}

/// The literal that generated code writes for a text is a Rust string literal that
/// stands for exactly that text: it is in double quotes, and what lies between them
/// reads back, escapes undone, as the text.
pub proof fn law_string_literal_denotes_text(s: Seq<char>)
    ensures
        string_literal(s).len() >= 2,
        string_literal(s)[0] == '"',
        string_literal(s).last() == '"',
        unescape(string_literal(s).subrange(1, string_literal(s).len() - 1)) == Some(s),
{
    let l = string_literal(s);
    assert(l.subrange(1, l.len() - 1) =~= escaped(s));
    lemma_unescape_escaped(s);
}

/// The names that parsing hands to type conversion are the names of the given
/// types, one for each, in their order.
pub proof fn law_type_names_are_the_declared_names(types: Seq<CustomType>)
    ensures
        type_names(types).len() == types.len(),
        forall|i: int| 0 <= i < types.len() ==> #[trigger] type_names(types)[i] == types[i].name.name@,
{
}

/// A type named after one of the module's own structs or aliases converts to that
/// name: the module's types are known to type conversion and kept as they are.
pub proof fn law_declared_type_kept(types: Seq<CustomType>, module: ItemMod, j: int, ty: RustType)
    requires
        lists_module_types(types, module),
        0 <= j < module_types(module).len(),
        ty matches RustType::Path(p) && p.segments@.len() > 0 && p.segments@.last().ident@
            == module_types(module)[j].0 && p.segments@.last().arguments is NoArgs,
    ensures
        type_wgsl(ty, type_names(types)) == Ok::<Seq<char>, crate::errors::WgslError>(module_types(module)[j].0),
{
    let n = module_types(module)[j].0;
    let names = type_names(types);
    assert(crate::custom_types::custom_type_model(types[j]) == module_types(module)[j]);
    assert(names[j] == n);
    assert(names.contains(n));
    let p = ty->Path_0;
    let seg = p.segments@.last();
    assert(crate::wgsl_types::arguments_wgsl(seg.arguments, names) == Ok::<Seq<char>, crate::errors::WgslError>(Seq::empty()));
    assert(n + Seq::<char>::empty() =~= n);
    assert(crate::wgsl_types::segment_wgsl(seg, names) == Ok::<Seq<char>, crate::errors::WgslError>(n));
}

/// The WGSL of a boolean literal reads back as the same boolean: it is the keyword
/// `true` exactly when the literal is true, and `false` exactly when it is false.
/// Number literals are written as in the source.
pub proof fn law_literals_keep_their_value(b: bool, digits: String)
    ensures
        lit_wgsl(Lit::Bool(b)) is Ok,
        (lit_wgsl(Lit::Bool(b))->Ok_0 == "true"@) <==> b,
        (lit_wgsl(Lit::Bool(b))->Ok_0 == "false"@) <==> !b,
        lit_wgsl(Lit::Int(digits)) == Ok::<Seq<char>, crate::errors::WgslError>(digits@),
        lit_wgsl(Lit::Float(digits)) == Ok::<Seq<char>, crate::errors::WgslError>(digits@),
{
    reveal_strlit("true");
    reveal_strlit("false");
    assert("true"@.len() != "false"@.len());
}

/// The scalar suffixes of the helper vector and matrix types: `I32`, `U32`, `F32`,
/// `F16` and `Bool`, each standing for the WGSL scalar spelled as its lower case.
pub proof fn law_scalar_suffix_is_its_lower_case(sfx: Seq<char>)
    ensures
        (scalar_suffix_wgsl(sfx) is Some) <==> (sfx == "I32"@ || sfx == "U32"@ || sfx == "F32"@
            || sfx == "F16"@ || sfx == "Bool"@),
        scalar_suffix_wgsl(sfx) is Some ==> scalar_suffix_wgsl(sfx)->Some_0 == ascii_lowercase(sfx),
{
    reveal_strlit("I32");
    reveal_strlit("U32");
    reveal_strlit("F32");
    reveal_strlit("F16");
    reveal_strlit("Bool");
    reveal_strlit("i32");
    reveal_strlit("u32");
    reveal_strlit("f32");
    reveal_strlit("f16");
    reveal_strlit("bool");
    if sfx == "I32"@ {
        assert(ascii_lowercase(sfx) =~= "i32"@);
    } else if sfx == "U32"@ {
        assert(ascii_lowercase(sfx) =~= "u32"@);
    } else if sfx == "F32"@ {
        assert(ascii_lowercase(sfx) =~= "f32"@);
    } else if sfx == "F16"@ {
        assert(ascii_lowercase(sfx) =~= "f16"@);
    } else if sfx == "Bool"@ {
        assert(ascii_lowercase(sfx) =~= "bool"@);
    }
}

/// A helper vector type `Vec{d}{S}` (dimension 2 to 4, a scalar suffix `S`) is the
/// WGSL vector `vec{d}<s>` of the same dimension over the lower case of `S`.
pub proof fn law_helper_vector_type(d: char, sfx: Seq<char>)
    requires
        d == '2' || d == '3' || d == '4',
        sfx == "I32"@ || sfx == "U32"@ || sfx == "F32"@ || sfx == "F16"@ || sfx == "Bool"@,
    ensures
        helper_type_wgsl("Vec"@ + seq![d] + sfx) == Some("vec"@ + seq![d] + "<"@ + ascii_lowercase(sfx) + ">"@),
{
    law_scalar_suffix_is_its_lower_case(sfx);
    reveal_strlit("Vec");
    let name = "Vec"@ + seq![d] + sfx;
    assert(name.subrange(0, 3) =~= "Vec"@);
    assert(name[3] == d);
    assert(name.subrange(4, name.len() as int) =~= sfx);
    assert(name.subrange(3, 4) =~= seq![d]);
}

/// `needle` stands somewhere in `hay`.
pub open spec fn occurs_in(needle: Seq<char>, hay: Seq<char>) -> bool {
    exists|k: int| 0 <= k && k + needle.len() <= hay.len() && #[trigger] hay.subrange(k, k + needle.len()) == needle
}

proof fn lemma_occurs_in_concat(needle: Seq<char>, pre: Seq<char>, mid: Seq<char>, post: Seq<char>)
    requires
        occurs_in(needle, mid),
    ensures
        occurs_in(needle, pre + mid + post),
{
    let k = choose|k: int| 0 <= k && k + needle.len() <= mid.len() && #[trigger] mid.subrange(k, k + needle.len()) == needle;
    let hay = pre + mid + post;
    let k2 = pre.len() + k;
    assert(hay.subrange(k2, k2 + needle.len()) =~= mid.subrange(k, k + needle.len()));
}

proof fn lemma_lines_hold_each<T: ModulePart>(s: Seq<T>, i: int)
    requires
        0 <= i < s.len(),
    ensures
        occurs_in(s[i].part_wgsl() + "\n"@, lines_of(s)),
    decreases s.len(),
{
    let line = s[i].part_wgsl() + "\n"@;
    let prev = lines_of(s.drop_last());
    if i == s.len() - 1 {
        let hay = lines_of(s);
        assert(hay =~= prev + line);
        assert(hay.subrange(prev.len() as int, (prev.len() + line.len()) as int) =~= line);
    } else {
        lemma_lines_hold_each(s.drop_last(), i);
        assert(s.drop_last()[i] == s[i]);
        lemma_occurs_in_concat(line, Seq::empty(), prev, s.last().part_wgsl() + "\n"@);
        assert(Seq::<char>::empty() + prev + (s.last().part_wgsl() + "\n"@) =~= lines_of(s));
    }
}

/// Every part of the user portion lands in the shader: each constant, helper type,
/// uniform, input array, output array and helper function contributes its WGSL, as a
/// line of its own, to the body in front of the entry point.
#[verifier::spinoff_prover]
#[verifier::rlimit(80)]
pub proof fn law_body_holds_every_user_part(u: WgslShaderModuleUserPortion, lib: WgslShaderModuleLibraryPortion)
    ensures
        forall|i: int| 0 <= i < u.static_consts@.len() ==> occurs_in(
            #[trigger] u.static_consts@[i].code.wgsl_code@ + "\n"@,
            module_body_wgsl(u, lib),
        ),
        forall|i: int| 0 <= i < u.helper_types@.len() ==> occurs_in(
            #[trigger] u.helper_types@[i].code.wgsl_code@ + "\n"@,
            module_body_wgsl(u, lib),
        ),
        forall|i: int| 0 <= i < u.uniforms@.len() ==> occurs_in(
            #[trigger] u.uniforms@[i].code.wgsl_code@ + "\n"@,
            module_body_wgsl(u, lib),
        ),
        forall|i: int| 0 <= i < u.helper_functions@.len() ==> occurs_in(
            #[trigger] u.helper_functions@[i].code.wgsl_code@ + "\n"@,
            module_body_wgsl(u, lib),
        ),
        forall|i: int| 0 <= i < u.input_arrays@.len() ==> occurs_in(
            #[trigger] u.input_arrays@[i].part_wgsl() + "\n"@,
            module_body_wgsl(u, lib),
        ),
        forall|i: int| 0 <= i < u.output_arrays@.len() ==> occurs_in(
            #[trigger] u.output_arrays@[i].part_wgsl() + "\n"@,
            module_body_wgsl(u, lib),
        ),
{
    let sc = lines_of(u.static_consts@);
    let ht = lines_of(u.helper_types@);
    let pc = lines_of(lib.pipeline_consts@);
    let un = lines_of(u.uniforms@);
    let lu = lines_of(lib.uniforms@);
    let ia = lines_of(u.input_arrays@);
    let oa = lines_of(u.output_arrays@);
    let bd = lines_of(lib.bindings@);
    let hf = lines_of(u.helper_functions@);
    let lf = lines_of(lib.helper_functions@);
    let body = module_body_wgsl(u, lib);
    assert forall|i: int| 0 <= i < u.static_consts@.len() implies occurs_in(
        #[trigger] u.static_consts@[i].code.wgsl_code@ + "\n"@,
        body,
    ) by {
        lemma_lines_hold_each(u.static_consts@, i);
        lemma_occurs_in_concat(u.static_consts@[i].part_wgsl() + "\n"@, Seq::empty(), sc, ht + pc + un + lu + ia + oa + bd + hf + lf);
        assert(Seq::<char>::empty() + sc + (ht + pc + un + lu + ia + oa + bd + hf + lf) =~= body);
    }
    assert forall|i: int| 0 <= i < u.helper_types@.len() implies occurs_in(
        #[trigger] u.helper_types@[i].code.wgsl_code@ + "\n"@,
        body,
    ) by {
        lemma_lines_hold_each(u.helper_types@, i);
        lemma_occurs_in_concat(u.helper_types@[i].part_wgsl() + "\n"@, sc, ht, pc + un + lu + ia + oa + bd + hf + lf);
        assert(sc + ht + (pc + un + lu + ia + oa + bd + hf + lf) =~= body);
    }
    assert forall|i: int| 0 <= i < u.uniforms@.len() implies occurs_in(
        #[trigger] u.uniforms@[i].code.wgsl_code@ + "\n"@,
        body,
    ) by {
        lemma_lines_hold_each(u.uniforms@, i);
        lemma_occurs_in_concat(u.uniforms@[i].part_wgsl() + "\n"@, sc + ht + pc, un, lu + ia + oa + bd + hf + lf);
        assert((sc + ht + pc) + un + (lu + ia + oa + bd + hf + lf) =~= body);
    }
    assert forall|i: int| 0 <= i < u.input_arrays@.len() implies occurs_in(
        #[trigger] u.input_arrays@[i].part_wgsl() + "\n"@,
        body,
    ) by {
        lemma_lines_hold_each(u.input_arrays@, i);
        lemma_occurs_in_concat(u.input_arrays@[i].part_wgsl() + "\n"@, sc + ht + pc + un + lu, ia, oa + bd + hf + lf);
        assert((sc + ht + pc + un + lu) + ia + (oa + bd + hf + lf) =~= body);
    }
    assert forall|i: int| 0 <= i < u.output_arrays@.len() implies occurs_in(
        #[trigger] u.output_arrays@[i].part_wgsl() + "\n"@,
        body,
    ) by {
        lemma_lines_hold_each(u.output_arrays@, i);
        lemma_occurs_in_concat(u.output_arrays@[i].part_wgsl() + "\n"@, sc + ht + pc + un + lu + ia, oa, bd + hf + lf);
        assert((sc + ht + pc + un + lu + ia) + oa + (bd + hf + lf) =~= body);
    }
    assert forall|i: int| 0 <= i < u.helper_functions@.len() implies occurs_in(
        #[trigger] u.helper_functions@[i].code.wgsl_code@ + "\n"@,
        body,
    ) by {
        lemma_lines_hold_each(u.helper_functions@, i);
        lemma_occurs_in_concat(u.helper_functions@[i].part_wgsl() + "\n"@, sc + ht + pc + un + lu + ia + oa + bd, hf, lf);
        assert((sc + ht + pc + un + lu + ia + oa + bd) + hf + lf =~= body);
    }
}

/// The code that rebuilds a portion writes each list under its own field: what
/// follows `helper_types: [` is the list of the portion's helper types, and what
/// follows `uniforms: [` the list of its uniforms (and likewise for the other lists),
/// so `parsed()` gives back each part in the field it came from.
#[verifier::rlimit(50)]
pub proof fn law_initializer_lists_under_their_fields(u: WgslShaderModuleUserPortion, vis: Seq<char>, ident: Seq<char>)
    ensures
        exists|pre: Seq<char>, post: Seq<char>| initializer_module_code(u, vis, ident) == pre
            + "static_consts: ["@ + joined_codes(u.static_consts@)
            + "].into(),\n            helper_types: ["@ + joined_codes(u.helper_types@)
            + "].into(),\n            uniforms: ["@ + joined_codes(u.uniforms@)
            + "].into(),\n            input_arrays: ["@ + joined_codes(u.input_arrays@)
            + "].into(),\n            output_arrays: ["@ + joined_codes(u.output_arrays@)
            + "].into(),\n            helper_functions: ["@ + joined_codes(u.helper_functions@)
            + "].into(),"@ + post,
{
    let pre = vis + " mod "@ + ident
        + " {\n    use rust_to_wgsl::wgsl_components::*;\n    use rust_to_wgsl::custom_type_name::*;\n\n    pub fn parsed() -> WgslShaderModuleUserPortion {\n        WgslShaderModuleUserPortion {\n            "@;
    let post = "\n            main_function: "@ + crate::tokenized_initializer_for_user_portion::main_function_code(u.main_function)
        + ",\n        }\n    }\n}"@;
    assert(initializer_module_code(u, vis, ident) =~= pre
        + "static_consts: ["@ + joined_codes(u.static_consts@)
        + "].into(),\n            helper_types: ["@ + joined_codes(u.helper_types@)
        + "].into(),\n            uniforms: ["@ + joined_codes(u.uniforms@)
        + "].into(),\n            input_arrays: ["@ + joined_codes(u.input_arrays@)
        + "].into(),\n            output_arrays: ["@ + joined_codes(u.output_arrays@)
        + "].into(),\n            helper_functions: ["@ + joined_codes(u.helper_functions@)
        + "].into(),"@ + post);
}

} // verus!
