//! The `use` items a shader module may hold: one import of the helper module, and
//! imports of this library's attribute macros.
use vstd::prelude::*;
use crate::errors::WgslError;
use crate::syntax::{Item, UseTree};
use crate::text::str_eq;

verus! {

/// The module that a shader module may import from.
pub const HELPER_MODULE_NAME: &'static str = "wgsl_in_rust_helpers";

/// `t` names `valid`: as the imported name, or as a segment of its path.
pub open spec fn mentions_segment(t: UseTree, valid: Seq<char>) -> bool
    decreases t,
{
    match t {
        UseTree::Name(n) => n@ == valid,
        UseTree::Path { ident, tree } => ident@ == valid || mentions_segment(*tree, valid),
        _ => false,
    }
}

/// A `use` tree imports from `valid`: it is a path whose rest, past its first
/// segment, names `valid`.
pub open spec fn is_valid_use(t: UseTree, valid: Seq<char>) -> bool {
    match t {
        UseTree::Path { ident, tree } => mentions_segment(*tree, valid),
        _ => false,
    }
}

fn check_path_for_helper(path: &UseTree, valid_path_segment: &str) -> (res: bool)
    ensures
        res == mentions_segment(*path, valid_path_segment@),
    decreases path,
{
    match path {
        UseTree::Name(name) => str_eq(name.as_str(), valid_path_segment),
        UseTree::Path { ident, tree } => {
            if str_eq(ident.as_str(), valid_path_segment) {
                true
            } else {
                check_path_for_helper(tree, valid_path_segment)
            }
        },
        _ => false,
    }
}

/// The subtree reached from `t` by following `n` path links.
pub open spec fn follow(t: UseTree, n: nat) -> UseTree
    decreases n,
{
    if n == 0 {
        t
    } else {
        match t {
            UseTree::Path { ident, tree } => follow(*tree, (n - 1) as nat),
            _ => t,
        }
    }
}

proof fn lemma_follow_mentions(t: UseTree, n: nat, valid: Seq<char>)
    requires
        mentions_segment(follow(t, n), valid),
    ensures
        mentions_segment(t, valid),
    decreases n,
{
    if n > 0 {
        match t {
            UseTree::Path { ident, tree } => {
                lemma_follow_mentions(*tree, (n - 1) as nat, valid);
            },
            _ => {},
        }
    }
}

proof fn lemma_follow_step(t: UseTree, n: nat)
    requires
        follow(t, n) is Path,
    ensures
        follow(t, n + 1) == *follow(t, n)->tree,
    decreases n,
{
    match t {
        UseTree::Path { ident, tree } => {
            if n > 0 {
                lemma_follow_step(*tree, (n - 1) as nat);
                assert(follow(t, n) == follow(*tree, (n - 1) as nat));
            }
            assert(follow(t, n + 1) == follow(*tree, n));
        },
        _ => {
            assert(follow(t, n) == t);
        },
    }
}

/// Whether a `use` tree imports from `valid_path_segment` (see `is_valid_use`). The
/// tree is walked down its path, testing what follows each segment.
pub fn is_valid_use_statement(tree: &UseTree, valid_path_segment: &str) -> (res: bool)
    ensures
        res == is_valid_use(*tree, valid_path_segment@),
{
    let mut current = tree;
    let ghost mut steps: nat = 0;
    loop
        invariant
            *current == follow(*tree, steps),
            steps > 0 ==> tree is Path && !mentions_segment(*tree->tree, valid_path_segment@),
        decreases *current,
    {
        match current {
            UseTree::Path { ident: _, tree: next } => {
                if check_path_for_helper(next, valid_path_segment) {
                    proof {
                        if steps > 0 {
                            lemma_follow_step(*tree, steps);
                            assert(follow(*tree->tree, steps) == follow(*tree, steps + 1));
                            lemma_follow_mentions(*tree->tree, steps, valid_path_segment@);
                        }
                    }
                    return true;
                }
                proof {
                    lemma_follow_step(*tree, steps);
                }
                current = next;
                proof {
                    steps = steps + 1;
                }
            },
            UseTree::Glob => {
                return match tree {
                    UseTree::Path { ident: _, tree: t } => check_path_for_helper(t, valid_path_segment),
                    _ => false,
                };
            },
            _ => {
                return false;
            },
        }
    }
}

/// The crate whose attribute macros (`#[wgsl_config]` and the like) a shader module
/// may import.
pub const MACRO_CRATE_NAME: &'static str = "rust_to_wgsl";

/// The attribute macros that a shader module may import by name.
pub open spec fn is_attribute_macro_name(n: Seq<char>) -> bool {
    ||| n == "wgsl_config"@
    ||| n == "wgsl_input_array"@
    ||| n == "wgsl_output_array"@
    ||| n == "wgsl_output_vec"@
    ||| n == "wgsl_shader_module"@
}

/// A `use` tree imports attribute macros of this library: `rust_to_wgsl::*` or
/// `rust_to_wgsl::NAME` for one of the attribute macros.
pub open spec fn is_attribute_import(t: UseTree) -> bool {
    match t {
        UseTree::Path { ident, tree } => ident@ == MACRO_CRATE_NAME@ && match *tree {
            UseTree::Glob => true,
            UseTree::Name(n) => is_attribute_macro_name(n@),
            _ => false,
        },
        _ => false,
    }
}

fn is_attribute_import_exec(t: &UseTree) -> (res: bool)
    ensures
        res == is_attribute_import(*t),
{
    match t {
        UseTree::Path { ident, tree } => {
            if !str_eq(ident.as_str(), MACRO_CRATE_NAME) {
                return false;
            }
            match &**tree {
                UseTree::Glob => true,
                UseTree::Name(n) => {
                    let n = n.as_str();
                    str_eq(n, "wgsl_config") || str_eq(n, "wgsl_input_array") || str_eq(
                        n,
                        "wgsl_output_array",
                    ) || str_eq(n, "wgsl_output_vec") || str_eq(n, "wgsl_shader_module")
                },
                _ => false,
            }
        },
        _ => false,
    }
}

/// The validation of the `use` items, in order: imports of this library's attribute
/// macros are let through; every other one must import from the helper module, and
/// only one may. `Ok` says whether a helper import was met.
pub open spec fn use_scan(items: Seq<Item>) -> Result<bool, WgslError>
    decreases items.len(),
{
    if items.len() == 0 {
        Ok(false)
    } else {
        match use_scan(items.drop_last()) {
            Err(e) => Err(e),
            Ok(found) => match items.last() {
                Item::Use(t) => if is_attribute_import(t) {
                    Ok(found)
                } else if !is_valid_use(t, HELPER_MODULE_NAME@) {
                    Err(WgslError::InvalidUseStatement)
                } else if found {
                    Err(WgslError::DuplicateUseStatement)
                } else {
                    Ok(true)
                },
                _ => Ok(found),
            },
        }
    }
}

/// The items that are not `use` items, in their order.
pub open spec fn non_use_items(items: Seq<Item>) -> Seq<Item>
    decreases items.len(),
{
    if items.len() == 0 {
        Seq::empty()
    } else if items.last() is Use {
        non_use_items(items.drop_last())
    } else {
        non_use_items(items.drop_last()).push(items.last())
    }
}

/// The items behind a list of references.
pub open spec fn item_derefs(s: Seq<&Item>) -> Seq<Item> {
    s.map_values(|r: &Item| *r)
}

/// Rejects a `use` of anything but the helper module or this library's attribute
/// macros, and a second import of the helper module; otherwise gives the other items,
/// in order.
pub fn handle_use_statements(content: &Vec<Item>) -> (res: Result<Vec<&Item>, WgslError>)
    ensures
        match res {
            Ok(v) => use_scan(content@) is Ok && item_derefs(v@) == non_use_items(content@),
            Err(e) => use_scan(content@) == Err::<bool, WgslError>(e),
        },
{
    let n = content.len();
    let mut found_valid_use_statement = false;
    let mut kept: Vec<&Item> = Vec::new();
    let mut i: usize = 0;
    assert(item_derefs(kept@) =~= non_use_items(content@.subrange(0, 0)));
    while i < n
        invariant
            n == content@.len(),
            i <= n,
            use_scan(content@.subrange(0, i as int)) == Ok::<bool, WgslError>(found_valid_use_statement),
            item_derefs(kept@) == non_use_items(content@.subrange(0, i as int)),
        decreases n - i,
    {
        proof {
            assert(content@.subrange(0, i + 1).drop_last() =~= content@.subrange(0, i as int));
            assert(content@.subrange(0, i + 1).last() == content@[i as int]);
        }
        if let Item::Use(t) = &content[i] {
            if is_attribute_import_exec(t) {
                i = i + 1;
                continue;
            }
            if !is_valid_use_statement(t, HELPER_MODULE_NAME) {
                proof {
                    lemma_use_scan_error_persists(content@, i + 1);
                }
                return Err(WgslError::InvalidUseStatement);
            }
            if found_valid_use_statement {
                proof {
                    lemma_use_scan_error_persists(content@, i + 1);
                }
                return Err(WgslError::DuplicateUseStatement);
            }
            found_valid_use_statement = true;
        } else {
            let ghost before = kept@;
            kept.push(&content[i]);
            proof {
                assert(item_derefs(kept@) =~= item_derefs(before).push(content@[i as int]));
            }
        }
        i = i + 1;
    }
    assert(content@.subrange(0, n as int) =~= content@);
    Ok(kept)
}

proof fn lemma_use_scan_error_persists(items: Seq<Item>, k: int)
    requires
        0 <= k <= items.len(),
        use_scan(items.subrange(0, k)) is Err,
    ensures
        use_scan(items) == use_scan(items.subrange(0, k)),
    decreases items.len() - k,
{
    if k < items.len() {
        assert(items.subrange(0, k + 1).drop_last() =~= items.subrange(0, k));
        lemma_use_scan_error_persists(items, k + 1);
    } else {
        assert(items.subrange(0, k) =~= items);
    }
}

} // verus!
